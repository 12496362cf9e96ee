//! The addresses of the API's resources: a host chosen by region, a path, and
//! query parameters in the order in which they are appended.
use crate::enums::division_label;
use crate::enums::queue_label;
use crate::enums::region_host;
use crate::enums::tier_label;
use crate::enums::Division;
use crate::enums::Queue;
use crate::enums::Region;
use crate::enums::Tier;
use crate::error::Error;
use crate::error::ParseCause;
use crate::text::push_signed_decimal;
use crate::text::signed_decimal;
use url::ParseError as UrlError;
use url::Url;
use vstd::prelude::*;

verus! {

/// The text of the URL that `Url::parse` makes of a text, when it accepts it.
pub uninterp spec fn parsed_url(s: Seq<char>) -> Option<Seq<char>>;

/// The text of the URL `url` once the pair `name=value` is appended to its
/// query, when `Url::parse` accepts `url`.
pub uninterp spec fn url_with_pair(url: Seq<char>, name: Seq<char>, value: Seq<char>) -> Option<
    Seq<char>,
>;

/// Relies on `Url::parse`, whose result depends on the text alone, and on
/// the conversion of a `Url` into its text.
#[verifier::external_body]
fn parse_url(s: &str) -> (r: Result<String, UrlError>)
    ensures
        match parsed_url(s@) {
            Some(t) => r is Ok && r->Ok_0@ == t,
            None => r is Err,
        },
{
    match Url::parse(s) {
        Ok(url) => Ok(url.into()),
        Err(e) => Err(e),
    }
}

/// Relies on `Url::query_pairs_mut` and the `append_pair` of the serializer
/// that it gives, which add one encoded `name=value` pair to the query of the
/// URL that `url` is the text of; the result depends on the three texts alone.
#[verifier::external_body]
fn append_query_pair(url: &str, name: &str, value: &str) -> (r: Result<String, UrlError>)
    ensures
        match url_with_pair(url@, name@, value@) {
            Some(t) => r is Ok && r->Ok_0@ == t,
            None => r is Err,
        },
{
    match Url::parse(url) {
        Ok(mut parsed) => {
            parsed.query_pairs_mut().append_pair(name, value);
            Ok(parsed.into())
        },
        Err(e) => Err(e),
    }
}

/// A resource address: the text before the query, and the query parameters.
#[derive(Clone, Debug)]
pub struct Endpoint {
    pub address: String,
    pub query: Vec<(String, String)>,
}

pub open spec fn query_view(q: Seq<(String, String)>) -> Seq<(Seq<char>, Seq<char>)> {
    q.map_values(|p: (String, String)| (p.0@, p.1@))
}

/// The URL text of `url` with the pairs of `query` appended in order.
pub open spec fn url_with_query(url: Option<Seq<char>>, query: Seq<(Seq<char>, Seq<char>)>) -> Option<
    Seq<char>,
>
    decreases query.len(),
{
    if query.len() == 0 {
        url
    } else {
        match url_with_query(url, query.drop_last()) {
            Some(t) => url_with_pair(t, query.last().0, query.last().1),
            None => None,
        }
    }
}

/// Once the URL cannot be made from the first `k` pairs, it cannot be made
/// from all of them.
pub proof fn lemma_url_with_query_fails(
    url: Option<Seq<char>>,
    query: Seq<(Seq<char>, Seq<char>)>,
    k: int,
)
    requires
        0 <= k <= query.len(),
        url_with_query(url, query.take(k)) is None,
    ensures
        url_with_query(url, query) is None,
    decreases query.len(),
{
    if k == query.len() {
        assert(query.take(k) =~= query);
    } else {
        assert(query.drop_last().take(k) =~= query.take(k));
        lemma_url_with_query_fails(url, query.drop_last(), k);
    }
}

/// The URL text of an endpoint: its address parsed, then its query pairs
/// appended in order.
pub open spec fn endpoint_url(e: Endpoint) -> Option<Seq<char>> {
    url_with_query(parsed_url(e.address@), query_view(e.query@))
}

/// The address of `path` on the host that serves `region`.
pub open spec fn api_address(region: Region, path: Seq<char>) -> Seq<char> {
    "https://"@ + region_host(region) + path
}

/// One parameter for each of `values`, in order.
pub open spec fn repeated_pairs(name: Seq<char>, values: Option<Seq<i32>>) -> Seq<
    (Seq<char>, Seq<char>),
> {
    match values {
        Some(v) => v.map_values(|x: i32| (name, signed_decimal(x as int))),
        None => Seq::empty(),
    }
}

/// One parameter when there is a value.
pub open spec fn optional_pair(name: Seq<char>, value: Option<int>) -> Seq<(Seq<char>, Seq<char>)> {
    match value {
        Some(x) => seq![(name, signed_decimal(x))],
        None => Seq::empty(),
    }
}

pub open spec fn widen32(v: Option<i32>) -> Option<int> {
    match v {
        Some(x) => Some(x as int),
        None => None,
    }
}

pub open spec fn widen64(v: Option<i64>) -> Option<int> {
    match v {
        Some(x) => Some(x as int),
        None => None,
    }
}

pub open spec fn ids_view(v: Option<Vec<i32>>) -> Option<Seq<i32>> {
    match v {
        Some(ids) => Some(ids@),
        None => None,
    }
}

/// The filters of a match list, in the order in which they are appended.
pub open spec fn match_list_query(
    champion: Option<Seq<i32>>,
    queue: Option<Seq<i32>>,
    end_time: Option<int>,
    begin_time: Option<int>,
    end_index: Option<int>,
    begin_index: Option<int>,
) -> Seq<(Seq<char>, Seq<char>)> {
    repeated_pairs("champion"@, champion) + repeated_pairs("queue"@, queue) + optional_pair(
        "endTime"@,
        end_time,
    ) + optional_pair("beginTime"@, begin_time) + optional_pair("endIndex"@, end_index)
        + optional_pair("begin_index"@, begin_index)
}

fn address(region: Region, path: &str, last: &str) -> (s: String)
    ensures
        s@ == api_address(region, path@ + last@),
{
    let mut s = String::new();
    s.append("https://");
    s.append(region.as_str());
    s.append(path);
    s.append(last);
    proof {
        assert(s@ =~= api_address(region, path@ + last@));
    }
    s
}

fn decimal_string(n: i64) -> (s: String)
    ensures
        s@ == signed_decimal(n as int),
{
    let mut s = String::new();
    push_signed_decimal(&mut s, n);
    proof {
        assert(s@ =~= signed_decimal(n as int));
    }
    s
}

fn push_pair(query: &mut Vec<(String, String)>, name: &str, value: i64)
    ensures
        query_view(final(query)@) == query_view(old(query)@).push((name@, signed_decimal(value as int))),
{
    let ghost before = query_view(query@);
    query.push((name.to_string(), decimal_string(value)));
    proof {
        assert(query_view(query@) =~= before.push((name@, signed_decimal(value as int))));
    }
}

fn push_repeated(query: &mut Vec<(String, String)>, name: &str, values: &Option<Vec<i32>>)
    ensures
        query_view(final(query)@) == query_view(old(query)@) + repeated_pairs(
            name@,
            ids_view(*values),
        ),
{
    match values {
        Some(ids) => {
            let ghost before = query_view(query@);
            let mut k: usize = 0;
            proof {
                assert(before + repeated_pairs(name@, Some(ids@.take(0))) =~= before);
            }
            while k < ids.len()
                invariant
                    k <= ids.len(),
                    query_view(query@) == before + repeated_pairs(name@, Some(ids@.take(k as int))),
                decreases ids.len() - k,
            {
                push_pair(query, name, ids[k] as i64);
                proof {
                    assert(before + repeated_pairs(name@, Some(ids@.take(k + 1))) =~= before
                        + repeated_pairs(name@, Some(ids@.take(k as int))).push(
                        (name@, signed_decimal(ids@[k as int] as int)),
                    ));
                }
                k = k + 1;
            }
            proof {
                assert(ids@.take(ids.len() as int) =~= ids@);
            }
        },
        None => {
            proof {
                assert(query_view(query@) + repeated_pairs(name@, ids_view(*values)) =~= query_view(
                    query@,
                ));
            }
        },
    }
}

fn push_optional(query: &mut Vec<(String, String)>, name: &str, value: Option<i64>)
    ensures
        query_view(final(query)@) == query_view(old(query)@) + optional_pair(name@, widen64(value)),
{
    match value {
        Some(v) => {
            push_pair(query, name, v);
            proof {
                assert(query_view(old(query)@).push((name@, signed_decimal(v as int)))
                    =~= query_view(old(query)@) + optional_pair(name@, widen64(value)));
            }
        },
        None => {
            proof {
                assert(query_view(query@) + optional_pair(name@, widen64(value)) =~= query_view(
                    query@,
                ));
            }
        },
    }
}

fn widen(value: Option<i32>) -> (r: Option<i64>)
    ensures
        widen64(r) == widen32(value),
{
    match value {
        Some(v) => Some(v as i64),
        None => None,
    }
}

impl Endpoint {
    fn plain(address: String) -> (e: Endpoint)
        ensures
            e.address@ == address@,
            e.query@.len() == 0,
    {
        Endpoint { address, query: Vec::new() }
    }

    /// The challenger league of a queue.
    pub fn challenger_league(region: Region, queue: Queue) -> (e: Endpoint)
        ensures
            e.address@ == api_address(
                region,
                "/lol/league/v4/challengerleagues/by-queue/"@ + queue_label(queue),
            ),
            e.query@.len() == 0,
    {
        Endpoint::plain(address(region, "/lol/league/v4/challengerleagues/by-queue/", queue.as_str()))
    }

    /// The league entries of a summoner, in all queues.
    pub fn league_entries_for_summoner(region: Region, encrypted_summoner_id: &str) -> (e: Endpoint)
        ensures
            e.address@ == api_address(
                region,
                "/lol/league/v4/entries/by-summoner/"@ + encrypted_summoner_id@,
            ),
            e.query@.len() == 0,
    {
        Endpoint::plain(address(region, "/lol/league/v4/entries/by-summoner/", encrypted_summoner_id))
    }

    /// The league entries of a queue, tier and division, with an optional page.
    pub fn league_entries(
        region: Region,
        queue: Queue,
        tier: Tier,
        division: Division,
        page: Option<i8>,
    ) -> (e: Endpoint)
        ensures
            e.address@ == api_address(
                region,
                "/lol/league/v4/entries/"@ + queue_label(queue) + "/"@ + tier_label(tier) + "/"@
                    + division_label(division),
            ),
            query_view(e.query@) == optional_pair(
                "page"@,
                match page {
                    Some(p) => Some(p as int),
                    None => None,
                },
            ),
    {
        let mut path = String::new();
        path.append("/lol/league/v4/entries/");
        path.append(queue.as_str());
        path.append("/");
        path.append(tier.as_str());
        path.append("/");
        let mut e = Endpoint::plain(address(region, path.as_str(), division.as_str()));
        proof {
            assert(e.address@ =~= api_address(
                region,
                "/lol/league/v4/entries/"@ + queue_label(queue) + "/"@ + tier_label(tier) + "/"@
                    + division_label(division),
            ));
            assert(query_view(e.query@) =~= Seq::empty());
        }
        let page = match page {
            Some(p) => Some(p as i64),
            None => None,
        };
        push_optional(&mut e.query, "page", page);
        proof {
            assert(query_view(e.query@) =~= optional_pair("page"@, widen64(page)));
        }
        e
    }

    /// The grandmaster league of a queue.
    pub fn grandmaster_league(region: Region, queue: Queue) -> (e: Endpoint)
        ensures
            e.address@ == api_address(
                region,
                "/lol/league/v4/grandmasterleagues/by-queue/"@ + queue_label(queue),
            ),
            e.query@.len() == 0,
    {
        Endpoint::plain(
            address(region, "/lol/league/v4/grandmasterleagues/by-queue/", queue.as_str()),
        )
    }

    /// A league by its id, inactive entries included.
    pub fn league(region: Region, league_id: &str) -> (e: Endpoint)
        ensures
            e.address@ == api_address(region, "/lol/league/v4/leagues/"@ + league_id@),
            e.query@.len() == 0,
    {
        Endpoint::plain(address(region, "/lol/league/v4/leagues/", league_id))
    }

    /// The master league of a queue.
    pub fn master_league(region: Region, queue: Queue) -> (e: Endpoint)
        ensures
            e.address@ == api_address(
                region,
                "/lol/league/v4/masterleagues/by-queue/"@ + queue_label(queue),
            ),
            e.query@.len() == 0,
    {
        Endpoint::plain(address(region, "/lol/league/v4/masterleagues/by-queue/", queue.as_str()))
    }

    /// A match by its id.
    pub fn match_by_id(region: Region, match_id: i64) -> (e: Endpoint)
        ensures
            e.address@ == api_address(
                region,
                "/lol/match/v4/matches/"@ + signed_decimal(match_id as int),
            ),
            e.query@.len() == 0,
    {
        let id = decimal_string(match_id);
        Endpoint::plain(address(region, "/lol/match/v4/matches/", id.as_str()))
    }

    /// The matches played on an account, narrowed by the filters that are
    /// given: champions and queues (one parameter per value), a time range in
    /// epoch milliseconds and an index range.
    pub fn match_list_by_account(
        region: Region,
        encrypted_account_id: &str,
        champion: Option<Vec<i32>>,
        queue: Option<Vec<i32>>,
        end_time: Option<i64>,
        begin_time: Option<i64>,
        end_index: Option<i32>,
        begin_index: Option<i32>,
    ) -> (e: Endpoint)
        ensures
            e.address@ == api_address(
                region,
                "/lol/match/v4/matchlists/by-account/"@ + encrypted_account_id@,
            ),
            query_view(e.query@) == match_list_query(
                ids_view(champion),
                ids_view(queue),
                widen64(end_time),
                widen64(begin_time),
                widen32(end_index),
                widen32(begin_index),
            ),
    {
        let mut e = Endpoint::plain(
            address(region, "/lol/match/v4/matchlists/by-account/", encrypted_account_id),
        );
        proof {
            assert(query_view(e.query@) =~= Seq::empty());
        }
        push_repeated(&mut e.query, "champion", &champion);
        push_repeated(&mut e.query, "queue", &queue);
        push_optional(&mut e.query, "endTime", end_time);
        push_optional(&mut e.query, "beginTime", begin_time);
        push_optional(&mut e.query, "endIndex", widen(end_index));
        push_optional(&mut e.query, "begin_index", widen(begin_index));
        proof {
            assert(query_view(e.query@) =~= match_list_query(
                ids_view(champion),
                ids_view(queue),
                widen64(end_time),
                widen64(begin_time),
                widen32(end_index),
                widen32(begin_index),
            ));
        }
        e
    }

    /// A summoner by account id.
    pub fn summoner_by_encrypted_account_id(region: Region, encrypted_account_id: &str) -> (e:
        Endpoint)
        ensures
            e.address@ == api_address(
                region,
                "/lol/summoner/v4/summoners/by-account/"@ + encrypted_account_id@,
            ),
            e.query@.len() == 0,
    {
        Endpoint::plain(
            address(region, "/lol/summoner/v4/summoners/by-account/", encrypted_account_id),
        )
    }

    /// A summoner by summoner name.
    pub fn summoner_by_summoner_name(region: Region, summoner_name: &str) -> (e: Endpoint)
        ensures
            e.address@ == api_address(
                region,
                "/lol/summoner/v4/summoners/by-name/"@ + summoner_name@,
            ),
            e.query@.len() == 0,
    {
        Endpoint::plain(address(region, "/lol/summoner/v4/summoners/by-name/", summoner_name))
    }

    /// A summoner by PUUID.
    pub fn summoner_by_encrypted_puuid(region: Region, encrypted_puu_id: &str) -> (e: Endpoint)
        ensures
            e.address@ == api_address(
                region,
                "/lol/summoner/v4/summoners/by-puuid/"@ + encrypted_puu_id@,
            ),
            e.query@.len() == 0,
    {
        Endpoint::plain(address(region, "/lol/summoner/v4/summoners/by-puuid/", encrypted_puu_id))
    }

    /// A summoner by summoner id.
    pub fn summoner_by_encrypted_summoner_id(region: Region, encrypted_summoner_id: &str) -> (e:
        Endpoint)
        ensures
            e.address@ == api_address(
                region,
                "/lol/summoner/v4/summoners/"@ + encrypted_summoner_id@,
            ),
            e.query@.len() == 0,
    {
        Endpoint::plain(address(region, "/lol/summoner/v4/summoners/", encrypted_summoner_id))
    }

    /// The URL of the endpoint, as text: the address parsed, with the query
    /// pairs appended in order. Fails with `ParseError` exactly when the URL
    /// cannot be made.
    pub fn to_url(&self) -> (r: Result<String, Error>)
        ensures
            match endpoint_url(*self) {
                Some(t) => r is Ok && r->Ok_0@ == t,
                None => r is Err && r->Err_0 is ParseError,
            },
    {
        let mut url = match parse_url(self.address.as_str()) {
            Ok(url) => url,
            Err(e) => {
                proof {
                    assert(query_view(self.query@).take(0) =~= Seq::<(Seq<char>, Seq<char>)>::empty());
                    lemma_url_with_query_fails(None, query_view(self.query@), 0);
                }
                return Err(Error::ParseError(ParseCause::Url(e)));
            },
        };
        let ghost pairs = query_view(self.query@);
        let mut k: usize = 0;
        proof {
            assert(pairs.take(0) =~= Seq::<(Seq<char>, Seq<char>)>::empty());
        }
        while k < self.query.len()
            invariant
                k <= self.query.len(),
                pairs == query_view(self.query@),
                url_with_query(parsed_url(self.address@), pairs.take(k as int)) == Some(url@),
            decreases self.query.len() - k,
        {
            proof {
                assert(pairs.take(k + 1).drop_last() =~= pairs.take(k as int));
            }
            match append_query_pair(url.as_str(), self.query[k].0.as_str(), self.query[k].1.as_str()) {
                Ok(next) => url = next,
                Err(e) => {
                    proof {
                        lemma_url_with_query_fails(parsed_url(self.address@), pairs, k + 1);
                    }
                    return Err(Error::ParseError(ParseCause::Url(e)));
                },
            }
            k = k + 1;
        }
        proof {
            assert(pairs.take(self.query.len() as int) =~= pairs);
        }
        Ok(url)
    }

}

} // verus!
