use league_of_legends_client::endpoint::Endpoint;
use league_of_legends_client::enums::Division;
use league_of_legends_client::enums::Queue;
use league_of_legends_client::enums::Region;
use league_of_legends_client::enums::Tier;
use league_of_legends_client::error::Error;
use league_of_legends_client::error::ParseCause;

fn pairs(e: &Endpoint) -> Vec<(&str, &str)> {
    e.query.iter().map(|(n, v)| (n.as_str(), v.as_str())).collect()
}

#[test]
fn challenger_league_address() {
    let e = Endpoint::challenger_league(Region::NorthAmerica, Queue::RankedSoloQueue);
    assert_eq!(
        e.address,
        "https://na1.api.riotgames.com/lol/league/v4/challengerleagues/by-queue/RANKED_SOLO_5x5"
    );
    assert!(e.query.is_empty());
    assert_eq!(e.to_url().unwrap().as_str(), e.address);
}

#[test]
fn league_addresses() {
    assert_eq!(
        Endpoint::grandmaster_league(Region::Korea, Queue::RankedFlexQueue).address,
        "https://kr.api.riotgames.com/lol/league/v4/grandmasterleagues/by-queue/RANKED_FLEX_SR"
    );
    assert_eq!(
        Endpoint::master_league(Region::EuropeWest, Queue::RankedFlexTwistedTreeline).address,
        "https://euw1.api.riotgames.com/lol/league/v4/masterleagues/by-queue/RANKED_FLEX_TT"
    );
    assert_eq!(
        Endpoint::league(Region::Oceania, "abc-123").address,
        "https://oc1.api.riotgames.com/lol/league/v4/leagues/abc-123"
    );
    assert_eq!(
        Endpoint::league_entries_for_summoner(Region::Turkey, "S1").address,
        "https://tr1.api.riotgames.com/lol/league/v4/entries/by-summoner/S1"
    );
}

#[test]
fn league_entries_with_and_without_page() {
    let e = Endpoint::league_entries(
        Region::Brazil,
        Queue::RankedSoloQueue,
        Tier::Diamond,
        Division::Four,
        None,
    );
    assert_eq!(
        e.address,
        "https://br1.api.riotgames.com/lol/league/v4/entries/RANKED_SOLO_5x5/DIAMOND/IV"
    );
    assert!(e.query.is_empty());
    let paged = Endpoint::league_entries(
        Region::Brazil,
        Queue::RankedSoloQueue,
        Tier::Iron,
        Division::One,
        Some(-2),
    );
    assert_eq!(pairs(&paged), vec![("page", "-2")]);
    assert_eq!(
        paged.to_url().unwrap().as_str(),
        "https://br1.api.riotgames.com/lol/league/v4/entries/RANKED_SOLO_5x5/IRON/I?page=-2"
    );
}

#[test]
fn match_by_id_address() {
    assert_eq!(
        Endpoint::match_by_id(Region::Japan, 3141592653).address,
        "https://jp1.api.riotgames.com/lol/match/v4/matches/3141592653"
    );
    assert_eq!(
        Endpoint::match_by_id(Region::Japan, i64::MIN).address,
        "https://jp1.api.riotgames.com/lol/match/v4/matches/-9223372036854775808"
    );
}

#[test]
fn match_list_filters_in_order() {
    let e = Endpoint::match_list_by_account(
        Region::Russia,
        "ACC",
        Some(vec![11, 22]),
        Some(vec![420]),
        Some(1600000000000),
        Some(1599000000000),
        Some(100),
        Some(0),
    );
    assert_eq!(
        e.address,
        "https://ru.api.riotgames.com/lol/match/v4/matchlists/by-account/ACC"
    );
    assert_eq!(
        pairs(&e),
        vec![
            ("champion", "11"),
            ("champion", "22"),
            ("queue", "420"),
            ("endTime", "1600000000000"),
            ("beginTime", "1599000000000"),
            ("endIndex", "100"),
            ("begin_index", "0"),
        ]
    );
    assert_eq!(
        e.to_url().unwrap().as_str(),
        "https://ru.api.riotgames.com/lol/match/v4/matchlists/by-account/ACC?champion=11&champion=22&queue=420&endTime=1600000000000&beginTime=1599000000000&endIndex=100&begin_index=0"
    );
}

#[test]
fn match_list_without_filters() {
    let e = Endpoint::match_list_by_account(
        Region::LatinAmericaNorth,
        "ACC",
        None,
        Some(vec![]),
        None,
        None,
        None,
        None,
    );
    assert!(e.query.is_empty());
}

#[test]
fn summoner_addresses() {
    assert_eq!(
        Endpoint::summoner_by_encrypted_account_id(Region::LatinAmericaSouth, "A").address,
        "https://la2.api.riotgames.com/lol/summoner/v4/summoners/by-account/A"
    );
    assert_eq!(
        Endpoint::summoner_by_summoner_name(Region::EuropeNordicAndEast, "Name").address,
        "https://eun1.api.riotgames.com/lol/summoner/v4/summoners/by-name/Name"
    );
    assert_eq!(
        Endpoint::summoner_by_encrypted_puuid(Region::NorthAmerica, "P").address,
        "https://na1.api.riotgames.com/lol/summoner/v4/summoners/by-puuid/P"
    );
    assert_eq!(
        Endpoint::summoner_by_encrypted_summoner_id(Region::NorthAmerica, "S").address,
        "https://na1.api.riotgames.com/lol/summoner/v4/summoners/S"
    );
}

#[test]
fn name_with_space_is_encoded_by_the_url() {
    let e = Endpoint::summoner_by_summoner_name(Region::NorthAmerica, "Some One");
    assert_eq!(
        e.to_url().unwrap().as_str(),
        "https://na1.api.riotgames.com/lol/summoner/v4/summoners/by-name/Some%20One"
    );
}

#[test]
fn malformed_address_is_a_parse_error() {
    let e = Endpoint { address: "not a url".to_string(), query: vec![] };
    assert!(matches!(e.to_url(), Err(Error::ParseError(ParseCause::Url(_)))));
}

#[test]
fn query_goes_before_a_fragment_of_the_address() {
    let e = Endpoint::match_list_by_account(
        Region::NorthAmerica,
        "a#b",
        None,
        None,
        None,
        None,
        Some(5),
        None,
    );
    assert_eq!(
        e.to_url().unwrap(),
        "https://na1.api.riotgames.com/lol/match/v4/matchlists/by-account/a?endIndex=5#b"
    );
}
