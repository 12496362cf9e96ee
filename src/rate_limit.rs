//! Quota telemetry read from the headers of a response: the application and
//! method limits, the use made of each so far, and the delay that the server
//! asks for before the next request.
use crate::headers::field_text;
use crate::headers::header_fields;
use crate::headers::header_text;
use crate::headers::is_lower_case;
use crate::text::decimal;
use crate::text::lemma_parse_unsigned_bounds;
use crate::text::lemma_split_on_nonempty;
use crate::text::parse_unsigned;
use crate::text::parse_unsigned_text;
use crate::text::push_decimal;
use crate::text::split_on;
use crate::text::split_text;
use reqwest::header::HeaderMap;
use vstd::prelude::*;

verus! {

/// One quota bucket: so many requests per so many seconds. A part that could
/// not be read is `None`.
#[derive(Clone, Copy, Debug, PartialEq, Eq, Structural)]
pub struct Rate {
    pub requests: Option<u16>,
    pub seconds: Option<u16>,
}

/// The telemetry of one response. Each quota list is `None` when its header
/// is absent or is not visible ASCII; `timeout_secs` is the `Retry-After`
/// delay in seconds, zero when there is none that can be read.
#[derive(Clone, Debug)]
pub struct RateLimit {
    pub app_rate_limit: Option<Vec<Rate>>,
    pub app_rate_limit_count: Option<Vec<Rate>>,
    pub method_rate_limit: Option<Vec<Rate>>,
    pub method_rate_limit_count: Option<Vec<Rate>>,
    pub timeout_secs: u64,
}

/// A number of a quota entry, read as a `u16`.
pub open spec fn quota_number(s: Seq<char>) -> Option<u16> {
    match parse_unsigned(s, u16::MAX as int) {
        Some(v) => Some(v as u16),
        None => None,
    }
}

/// The bucket that one entry `requests:seconds` describes. Fields after the
/// second are ignored.
pub open spec fn rate_of(entry: Seq<char>) -> Rate {
    let fields = split_on(entry, ':');
    Rate {
        requests: quota_number(fields[0]),
        seconds: if fields.len() > 1 {
            quota_number(fields[1])
        } else {
            None
        },
    }
}

/// The buckets of a quota header: one for each comma-separated entry.
pub open spec fn rates_of(header: Seq<char>) -> Seq<Rate> {
    split_on(header, ',').map_values(|entry: Seq<char>| rate_of(entry))
}

pub open spec fn rates_view(rates: Option<Vec<Rate>>) -> Option<Seq<Rate>> {
    match rates {
        Some(v) => Some(v@),
        None => None,
    }
}

/// The buckets of quota header `name`, when it is there as text.
pub open spec fn header_rates(fields: Map<Seq<char>, Seq<Seq<u8>>>, name: Seq<char>) -> Option<
    Seq<Rate>,
> {
    match field_text(fields, name) {
        Some(t) => Some(rates_of(t)),
        None => None,
    }
}

/// The `Retry-After` delay in seconds; zero when the header is absent or is
/// not a whole number of seconds.
pub open spec fn retry_after_secs(fields: Map<Seq<char>, Seq<Seq<u8>>>) -> u64 {
    match field_text(fields, "retry-after"@) {
        Some(t) => match parse_unsigned(t, u64::MAX as int) {
            Some(v) => v as u64,
            None => 0,
        },
        None => 0,
    }
}

/// Without a `Retry-After` header there is no delay; with one that reads
/// `n`, the delay is `n` seconds.
pub proof fn lemma_retry_after(fields: Map<Seq<char>, Seq<Seq<u8>>>)
    ensures
        !fields.contains_key("retry-after"@) ==> retry_after_secs(fields) == 0,
        field_text(fields, "retry-after"@) matches Some(t) ==> (parse_unsigned(t, u64::MAX as int)
            matches Some(n) ==> retry_after_secs(fields) == n),
{
    if let Some(t) = field_text(fields, "retry-after"@) {
        lemma_parse_unsigned_bounds(t, u64::MAX as int);
    }
}

/// Reads one quota entry.
pub fn parse_rate(entry: &str) -> (rate: Rate)
    ensures
        rate == rate_of(entry@),
{
    let fields = split_text(entry, ':');
    proof {
        lemma_split_on_nonempty(entry@, ':');
    }
    let requests = match parse_unsigned_text(fields[0], 65535) {
        Some(v) => Some(v as u16),
        None => None,
    };
    let seconds = if fields.len() > 1 {
        match parse_unsigned_text(fields[1], 65535) {
            Some(v) => Some(v as u16),
            None => None,
        }
    } else {
        None
    };
    proof {
        let pieces = split_on(entry@, ':');
        assert(fields[0]@ == pieces[0]);
        if pieces.len() > 1 {
            assert(fields[1]@ == pieces[1]);
        }
    }
    Rate { requests, seconds }
}

/// Reads a quota header: one bucket per comma-separated entry. A malformed
/// entry gives a bucket whose unreadable parts are `None`; it never fails.
pub fn parse_rate_limit(header_string: &str) -> (rates: Vec<Rate>)
    ensures
        rates@ == rates_of(header_string@),
{
    let entries = split_text(header_string, ',');
    let mut rates: Vec<Rate> = Vec::new();
    let mut k: usize = 0;
    while k < entries.len()
        invariant
            k <= entries.len(),
            entries.len() == split_on(header_string@, ',').len(),
            forall|j: int|
                0 <= j < entries.len() ==> (#[trigger] entries[j])@ == split_on(
                    header_string@,
                    ',',
                )[j],
            rates.len() == k,
            forall|j: int|
                0 <= j < k ==> #[trigger] rates[j] == rate_of(split_on(header_string@, ',')[j]),
        decreases entries.len() - k,
    {
        let rate = parse_rate(entries[k]);
        rates.push(rate);
        k = k + 1;
    }
    proof {
        assert(rates@ =~= rates_of(header_string@));
    }
    rates
}

fn header_rates_in(headers: &HeaderMap, name: &str) -> (rates: Option<Vec<Rate>>)
    requires
        is_lower_case(name@),
    ensures
        rates_view(rates) == header_rates(header_fields(*headers), name@),
{
    match header_text(headers, name) {
        Some(t) => Some(parse_rate_limit(t.as_str())),
        None => None,
    }
}

/// The report on one bucket: its limit, how much of it is used, and its
/// period. Nothing when one of the three is missing.
pub open spec fn usage_entry(limit: Rate, count: Rate) -> Seq<char> {
    match (limit.requests, count.requests, limit.seconds) {
        (Some(l), Some(c), Some(s)) => " You've used "@ + decimal(c as nat) + "/"@ + decimal(
            l as nat,
        ) + " requests per "@ + decimal(s as nat) + " second(s). |"@,
        _ => Seq::empty(),
    }
}

/// The reports on the first `k` buckets that a limit list and a count list
/// share by position.
pub open spec fn usage_text(limits: Seq<Rate>, counts: Seq<Rate>, k: nat) -> Seq<char>
    decreases k,
{
    if k == 0 {
        Seq::empty()
    } else {
        usage_text(limits, counts, (k - 1) as nat) + usage_entry(limits[k - 1], counts[k - 1])
    }
}

/// A titled section that pairs limits with counts by position, as far as the
/// shorter list goes; nothing unless both lists are there.
pub open spec fn usage_section(
    title: Seq<char>,
    limits: Option<Seq<Rate>>,
    counts: Option<Seq<Rate>>,
) -> Seq<char> {
    match (limits, counts) {
        (Some(l), Some(c)) => title + usage_text(
            l,
            c,
            if l.len() < c.len() {
                l.len()
            } else {
                c.len()
            },
        ),
        _ => Seq::empty(),
    }
}

/// The one-line report on a response's quotas: the application section, then
/// the method section.
pub open spec fn summary_text(r: RateLimit) -> Seq<char> {
    usage_section(
        "(App rate limit):"@,
        rates_view(r.app_rate_limit),
        rates_view(r.app_rate_limit_count),
    ) + usage_section(
        "(Method rate limit):"@,
        rates_view(r.method_rate_limit),
        rates_view(r.method_rate_limit_count),
    )
}

fn push_usage_entry(out: &mut String, limit: Rate, count: Rate)
    ensures
        final(out)@ == old(out)@ + usage_entry(limit, count),
{
    match (limit.requests, count.requests, limit.seconds) {
        (Some(l), Some(c), Some(s)) => {
            out.append(" You've used ");
            push_decimal(out, c as u64);
            out.append("/");
            push_decimal(out, l as u64);
            out.append(" requests per ");
            push_decimal(out, s as u64);
            out.append(" second(s). |");
            proof {
                assert(final(out)@ =~= old(out)@ + usage_entry(limit, count));
            }
        },
        _ => {
            proof {
                assert(old(out)@ + usage_entry(limit, count) =~= old(out)@);
            }
        },
    }
}

fn push_usage_section(
    out: &mut String,
    title: &str,
    limits: &Option<Vec<Rate>>,
    counts: &Option<Vec<Rate>>,
)
    ensures
        final(out)@ == old(out)@ + usage_section(title@, rates_view(*limits), rates_view(*counts)),
{
    match (limits, counts) {
        (Some(l), Some(c)) => {
            out.append(title);
            let ghost start = out@;
            let n = if l.len() < c.len() {
                l.len()
            } else {
                c.len()
            };
            let mut k: usize = 0;
            proof {
                assert(start + usage_text(l@, c@, 0) =~= start);
            }
            while k < n
                invariant
                    k <= n,
                    n <= l.len(),
                    n <= c.len(),
                    out@ == start + usage_text(l@, c@, k as nat),
                decreases n - k,
            {
                push_usage_entry(out, l[k], c[k]);
                proof {
                    assert(start + usage_text(l@, c@, (k + 1) as nat) =~= start + usage_text(
                        l@,
                        c@,
                        k as nat,
                    ) + usage_entry(l@[k as int], c@[k as int]));
                }
                k = k + 1;
            }
            proof {
                assert(out@ =~= old(out)@ + usage_section(
                    title@,
                    rates_view(*limits),
                    rates_view(*counts),
                ));
            }
        },
        _ => {
            proof {
                assert(old(out)@ + usage_section(title@, rates_view(*limits), rates_view(*counts))
                    =~= old(out)@);
            }
        },
    }
}

impl RateLimit {
    /// A one-line report of the quotas, for diagnostics.
    pub fn summary(&self) -> (s: String)
        ensures
            s@ == summary_text(*self),
    {
        let mut s = String::new();
        push_usage_section(
            &mut s,
            "(App rate limit):",
            &self.app_rate_limit,
            &self.app_rate_limit_count,
        );
        push_usage_section(
            &mut s,
            "(Method rate limit):",
            &self.method_rate_limit,
            &self.method_rate_limit_count,
        );
        proof {
            assert(s@ =~= summary_text(*self));
        }
        s
    }

    /// Reads the telemetry of a response from its headers. Absent or
    /// malformed headers are never an error.
    pub fn from_headers(headers: &HeaderMap) -> (r: RateLimit)
        ensures
            rates_view(r.app_rate_limit) == header_rates(
                header_fields(*headers),
                "x-app-rate-limit"@,
            ),
            rates_view(r.app_rate_limit_count) == header_rates(
                header_fields(*headers),
                "x-app-rate-limit-count"@,
            ),
            rates_view(r.method_rate_limit) == header_rates(
                header_fields(*headers),
                "x-method-rate-limit"@,
            ),
            rates_view(r.method_rate_limit_count) == header_rates(
                header_fields(*headers),
                "x-method-rate-limit-count"@,
            ),
            r.timeout_secs == retry_after_secs(header_fields(*headers)),
    {
        proof {
            reveal_strlit("x-app-rate-limit");
            reveal_strlit("x-app-rate-limit-count");
            reveal_strlit("x-method-rate-limit");
            reveal_strlit("x-method-rate-limit-count");
            reveal_strlit("retry-after");
        }
        let app_rate_limit = header_rates_in(headers, "x-app-rate-limit");
        let app_rate_limit_count = header_rates_in(headers, "x-app-rate-limit-count");
        let method_rate_limit = header_rates_in(headers, "x-method-rate-limit");
        let method_rate_limit_count = header_rates_in(headers, "x-method-rate-limit-count");
        let timeout_secs = match header_text(headers, "retry-after") {
            Some(t) => match parse_unsigned_text(t.as_str(), u64::MAX) {
                Some(v) => v,
                None => 0,
            },
            None => 0,
        };
        RateLimit {
            app_rate_limit,
            app_rate_limit_count,
            method_rate_limit,
            method_rate_limit_count,
            timeout_secs,
        }
    }
}

} // verus!
