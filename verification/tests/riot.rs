use rsso::riot::routing::match_ids_by_puuid_url;
use rsso::riot::account::{parse_riot_id, RiotIdError};
use rsso::riot::routing::{
    account_by_riot_id_url, active_game_url, match_detail_url, match_regional_route_for_platform,
};

#[test]
fn parses_riot_id() {
    let parsed = parse_riot_id("Faker#KR1").expect("valid riot id");
    assert_eq!(parsed.game_name, "Faker");
    assert_eq!(parsed.tag_line, "KR1");
}

#[test]
fn riot_id_needs_a_tag_and_both_segments() {
    assert!(matches!(parse_riot_id("Faker"), Err(RiotIdError::MissingTag)));
    assert!(matches!(parse_riot_id(" #KR1"), Err(RiotIdError::EmptySegment)));
    let parsed = parse_riot_id("  Hide on bush # KR1 ").expect("trimmed");
    assert_eq!(parsed.game_name, "Hide on bush");
    assert_eq!(parsed.tag_line, "KR1");
}

#[test]
fn path_encoding_uses_percent_spaces() {
    let url = account_by_riot_id_url("AMERICAS", "must trust a", "fart")
        .expect("valid regional route");
    assert!(url.ends_with("/must%20trust%20a/fart"));
}

#[test]
fn account_url_is_exact() {
    let url = account_by_riot_id_url("americas", "Ab#c", "NA1").expect("valid regional route");
    assert_eq!(
        url,
        "https://americas.api.riotgames.com/riot/account/v1/accounts/by-riot-id/Ab%23c/NA1"
    );
    assert!(account_by_riot_id_url("MARS", "a", "b").is_err());
}

#[test]
fn maps_match_platform_to_regional_route() {
    assert_eq!(
        match_regional_route_for_platform("NA1").expect("known platform"),
        "AMERICAS"
    );
    assert_eq!(
        match_regional_route_for_platform("EUW1").expect("known platform"),
        "EUROPE"
    );
}

#[test]
fn detail_and_spectator_urls() {
    assert_eq!(
        match_detail_url("EUROPE", "EUW1_1").expect("route"),
        "https://europe.api.riotgames.com/lol/match/v5/matches/EUW1_1"
    );
    assert_eq!(
        active_game_url("na1", "abc").expect("route"),
        "https://na1.api.riotgames.com/lol/spectator/v5/active-games/by-summoner/abc"
    );
    assert!(match_regional_route_for_platform("XX9").is_err());
}

#[test]
fn match_ids_url_lists_the_filters() {
    assert_eq!(
        match_ids_by_puuid_url("ASIA", "p u", Some(1700), Some(450), 20).expect("route"),
        "https://asia.api.riotgames.com/lol/match/v5/matches/by-puuid/p%20u/ids?start=0&count=20&startTime=1700&queue=450"
    );
    assert_eq!(
        match_ids_by_puuid_url("ASIA", "p", None, None, 5).expect("route"),
        "https://asia.api.riotgames.com/lol/match/v5/matches/by-puuid/p/ids?start=0&count=5"
    );
}
