use league_of_legends_client::enums::Division;
use league_of_legends_client::enums::Queue;
use league_of_legends_client::enums::Region;
use league_of_legends_client::enums::Tier;
use league_of_legends_client::text::parse_unsigned_text;
use league_of_legends_client::text::push_decimal;
use league_of_legends_client::text::push_signed_decimal;
use league_of_legends_client::text::split_text;
use league_of_legends_client::types::Team;

#[test]
fn division_labels() {
    assert_eq!(Division::One.as_str(), "I");
    assert_eq!(Division::Two.as_str(), "II");
    assert_eq!(Division::Three.as_str(), "III");
    assert_eq!(Division::Four.as_str(), "IV");
}

#[test]
fn queue_and_tier_labels() {
    assert_eq!(Queue::RankedSoloQueue.as_str(), "RANKED_SOLO_5x5");
    assert_eq!(Queue::RankedFlexQueue.as_str(), "RANKED_FLEX_SR");
    assert_eq!(Queue::RankedFlexTwistedTreeline.as_str(), "RANKED_FLEX_TT");
    assert_eq!(Tier::Iron.as_str(), "IRON");
    assert_eq!(Tier::Platinum.as_str(), "PLATINUM");
}

#[test]
fn region_hosts() {
    assert_eq!(Region::Brazil.as_str(), "br1.api.riotgames.com");
    assert_eq!(Region::Korea.as_str(), "kr.api.riotgames.com");
    assert_eq!(Region::Russia.as_str(), "ru.api.riotgames.com");
}

#[test]
fn team_codes() {
    assert_eq!(Team::Blue.code(), 100);
    assert_eq!(Team::Red.code(), 200);
    assert_eq!(Team::from_code(100), Some(Team::Blue));
    assert_eq!(Team::from_code(200), Some(Team::Red));
    assert_eq!(Team::from_code(150), None);
}

#[test]
fn split_keeps_empty_pieces() {
    assert_eq!(split_text("a,,b", ','), vec!["a", "", "b"]);
    assert_eq!(split_text("", ','), vec![""]);
    assert_eq!(split_text(",", ','), vec!["", ""]);
}

#[test]
fn unsigned_numbers_up_to_a_bound() {
    assert_eq!(parse_unsigned_text("65535", 65535), Some(65535));
    assert_eq!(parse_unsigned_text("65536", 65535), None);
    assert_eq!(parse_unsigned_text("18446744073709551615", u64::MAX), Some(u64::MAX));
    assert_eq!(parse_unsigned_text("18446744073709551616", u64::MAX), None);
    assert_eq!(parse_unsigned_text("", 65535), None);
    assert_eq!(parse_unsigned_text("+", 65535), None);
    assert_eq!(parse_unsigned_text("0012", 65535), Some(12));
    assert_eq!(parse_unsigned_text("1 ", 65535), None);
}

#[test]
fn unsigned_numbers_under_a_small_bound() {
    assert_eq!(parse_unsigned_text("5", 5), Some(5));
    assert_eq!(parse_unsigned_text("7", 5), None);
    assert_eq!(parse_unsigned_text("0", 0), Some(0));
    assert_eq!(parse_unsigned_text("1", 0), None);
    assert_eq!(parse_unsigned_text("10", 9), None);
}

#[test]
fn decimal_writing() {
    let mut s = String::from("n=");
    push_decimal(&mut s, 0);
    assert_eq!(s, "n=0");
    let mut t = String::new();
    push_decimal(&mut t, 1234567890);
    assert_eq!(t, "1234567890");
    let mut u = String::new();
    push_signed_decimal(&mut u, -42);
    assert_eq!(u, "-42");
}

#[test]
fn every_region_once() {
    let regions = Region::all();
    assert_eq!(regions.len(), 11);
    assert_eq!(regions[0], Region::Brazil);
    assert_eq!(regions[10], Region::Russia);
    for (i, a) in regions.iter().enumerate() {
        for b in &regions[i + 1..] {
            assert_ne!(a, b);
        }
    }
}
