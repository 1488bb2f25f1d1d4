//! Riot API hosts and request URLs.
use crate::domain::match_id::{
    is_platform_code, lemma_normalize_platform_idempotent, lemma_normalized_platform_is_code,
    lemma_platform_code_props, normalize_platform_spec, MatchIdFault,
};
use crate::text::{
    append, decimal, i64_to_decimal, is_ascii_upper, lemma_trim_upper_trim, push_char,
    signed_decimal, str_eq,
    to_ascii_uppercase, trim_seq, u64_to_decimal, upper_seq,
};
use vstd::prelude::*;

verus! {

#[derive(Debug, Clone, PartialEq, Eq)]
pub enum RiotRouteError {
    UnknownRegional(String),
    UnknownPlatform(String),
}

/// What a `RiotRouteError` says, with its text taken by its characters.
pub enum RouteFault {
    UnknownRegional(Seq<char>),
    UnknownPlatform(Seq<char>),
}

impl View for RiotRouteError {
    type V = RouteFault;

    open spec fn view(&self) -> RouteFault {
        match self {
            RiotRouteError::UnknownRegional(r) => RouteFault::UnknownRegional(r@),
            RiotRouteError::UnknownPlatform(p) => RouteFault::UnknownPlatform(p@),
        }
    }
}

pub open spec fn route_fault_message(f: RouteFault) -> Seq<char> {
    match f {
        RouteFault::UnknownRegional(r) => "unknown riot regional route `"@ + r + "`"@,
        RouteFault::UnknownPlatform(p) => "unknown riot platform route `"@ + p + "`"@,
    }
}

impl RiotRouteError {
    pub fn message(&self) -> (r: String)
        ensures
            r@ == route_fault_message(self@),
    {
        let mut s = String::new();
        match self {
            RiotRouteError::UnknownRegional(r) => {
                append(&mut s, "unknown riot regional route `");
                append(&mut s, r.as_str());
            },
            RiotRouteError::UnknownPlatform(p) => {
                append(&mut s, "unknown riot platform route `");
                append(&mut s, p.as_str());
            },
        }
        append(&mut s, "`");
        s
    }
}

/// The host of a regional route, looked up case-insensitively.
pub open spec fn regional_host_spec(route: Seq<char>) -> Result<Seq<char>, RouteFault> {
    let key = upper_seq(route);
    if key == "AMERICAS"@ {
        Ok("americas.api.riotgames.com"@)
    } else if key == "ASIA"@ {
        Ok("asia.api.riotgames.com"@)
    } else if key == "EUROPE"@ {
        Ok("europe.api.riotgames.com"@)
    } else if key == "SEA"@ {
        Ok("sea.api.riotgames.com"@)
    } else {
        Err(RouteFault::UnknownRegional(key))
    }
}

/// The host of a platform route, looked up case-insensitively.
pub open spec fn platform_host_spec(route: Seq<char>) -> Result<Seq<char>, RouteFault> {
    let key = upper_seq(route);
    if key == "BR1"@ {
        Ok("br1.api.riotgames.com"@)
    } else if key == "EUN1"@ {
        Ok("eun1.api.riotgames.com"@)
    } else if key == "EUW1"@ {
        Ok("euw1.api.riotgames.com"@)
    } else if key == "JP1"@ {
        Ok("jp1.api.riotgames.com"@)
    } else if key == "KR"@ {
        Ok("kr.api.riotgames.com"@)
    } else if key == "LA1"@ {
        Ok("la1.api.riotgames.com"@)
    } else if key == "LA2"@ {
        Ok("la2.api.riotgames.com"@)
    } else if key == "NA1"@ {
        Ok("na1.api.riotgames.com"@)
    } else if key == "OC1"@ {
        Ok("oc1.api.riotgames.com"@)
    } else if key == "TR1"@ {
        Ok("tr1.api.riotgames.com"@)
    } else if key == "RU"@ {
        Ok("ru.api.riotgames.com"@)
    } else if key == "PH2"@ {
        Ok("ph2.api.riotgames.com"@)
    } else if key == "SG2"@ {
        Ok("sg2.api.riotgames.com"@)
    } else if key == "TH2"@ {
        Ok("th2.api.riotgames.com"@)
    } else if key == "TW2"@ {
        Ok("tw2.api.riotgames.com"@)
    } else if key == "VN2"@ {
        Ok("vn2.api.riotgames.com"@)
    } else {
        Err(RouteFault::UnknownPlatform(key))
    }
}

/// The regional route that serves Match-V5 for a platform.
pub open spec fn match_region_spec(platform: Seq<char>) -> Result<Seq<char>, RouteFault> {
    let key = upper_seq(platform);
    if key == "BR1"@ || key == "LA1"@ || key == "LA2"@ || key == "NA1"@ {
        Ok("AMERICAS"@)
    } else if key == "EUN1"@ || key == "EUW1"@ || key == "RU"@ || key == "TR1"@ {
        Ok("EUROPE"@)
    } else if key == "JP1"@ || key == "KR"@ {
        Ok("ASIA"@)
    } else if key == "OC1"@ || key == "PH2"@ || key == "SG2"@ || key == "TH2"@ || key == "TW2"@
        || key == "VN2"@ {
        Ok("SEA"@)
    } else {
        Err(RouteFault::UnknownPlatform(key))
    }
}

pub fn regional_host(route: &str) -> (r: Result<&'static str, RiotRouteError>)
    ensures
        match regional_host_spec(route@) {
            Ok(h) => r matches Ok(x) && x@ == h,
            Err(e) => r matches Err(err) && err@ == e,
        },
{
    let u = to_ascii_uppercase(route);
    let k = u.as_str();
    if str_eq(k, "AMERICAS") {
        Ok("americas.api.riotgames.com")
    } else if str_eq(k, "ASIA") {
        Ok("asia.api.riotgames.com")
    } else if str_eq(k, "EUROPE") {
        Ok("europe.api.riotgames.com")
    } else if str_eq(k, "SEA") {
        Ok("sea.api.riotgames.com")
    } else {
        Err(RiotRouteError::UnknownRegional(u))
    }
}

pub fn platform_host(route: &str) -> (r: Result<&'static str, RiotRouteError>)
    ensures
        match platform_host_spec(route@) {
            Ok(h) => r matches Ok(x) && x@ == h,
            Err(e) => r matches Err(err) && err@ == e,
        },
{
    let u = to_ascii_uppercase(route);
    let k = u.as_str();
    if str_eq(k, "BR1") {
        Ok("br1.api.riotgames.com")
    } else if str_eq(k, "EUN1") {
        Ok("eun1.api.riotgames.com")
    } else if str_eq(k, "EUW1") {
        Ok("euw1.api.riotgames.com")
    } else if str_eq(k, "JP1") {
        Ok("jp1.api.riotgames.com")
    } else if str_eq(k, "KR") {
        Ok("kr.api.riotgames.com")
    } else if str_eq(k, "LA1") {
        Ok("la1.api.riotgames.com")
    } else if str_eq(k, "LA2") {
        Ok("la2.api.riotgames.com")
    } else if str_eq(k, "NA1") {
        Ok("na1.api.riotgames.com")
    } else if str_eq(k, "OC1") {
        Ok("oc1.api.riotgames.com")
    } else if str_eq(k, "TR1") {
        Ok("tr1.api.riotgames.com")
    } else if str_eq(k, "RU") {
        Ok("ru.api.riotgames.com")
    } else if str_eq(k, "PH2") {
        Ok("ph2.api.riotgames.com")
    } else if str_eq(k, "SG2") {
        Ok("sg2.api.riotgames.com")
    } else if str_eq(k, "TH2") {
        Ok("th2.api.riotgames.com")
    } else if str_eq(k, "TW2") {
        Ok("tw2.api.riotgames.com")
    } else if str_eq(k, "VN2") {
        Ok("vn2.api.riotgames.com")
    } else {
        Err(RiotRouteError::UnknownPlatform(u))
    }
}

pub fn match_regional_route_for_platform(platform_route: &str) -> (r: Result<
    &'static str,
    RiotRouteError,
>)
    ensures
        match match_region_spec(platform_route@) {
            Ok(h) => r matches Ok(x) && x@ == h,
            Err(e) => r matches Err(err) && err@ == e,
        },
{
    let u = to_ascii_uppercase(platform_route);
    let k = u.as_str();
    if str_eq(k, "BR1") || str_eq(k, "LA1") || str_eq(k, "LA2") || str_eq(k, "NA1") {
        Ok("AMERICAS")
    } else if str_eq(k, "EUN1") || str_eq(k, "EUW1") || str_eq(k, "RU") || str_eq(k, "TR1") {
        Ok("EUROPE")
    } else if str_eq(k, "JP1") || str_eq(k, "KR") {
        Ok("ASIA")
    } else if str_eq(k, "OC1") || str_eq(k, "PH2") || str_eq(k, "SG2") || str_eq(k, "TH2")
        || str_eq(k, "TW2") || str_eq(k, "VN2") {
        Ok("SEA")
    } else {
        Err(RiotRouteError::UnknownPlatform(u))
    }
}

// ---------------------------------------------------------------------------
// Percent-encoding
// ---------------------------------------------------------------------------

/// Bytes that stay as they are in a URL path segment.
pub open spec fn is_unreserved(b: u8) -> bool {
    ||| 65 <= b <= 90
    ||| 97 <= b <= 122
    ||| 48 <= b <= 57
    ||| b == 45
    ||| b == 46
    ||| b == 95
    ||| b == 126
}

pub open spec fn hex_digit(n: u8) -> char {
    if n < 10 {
        ((n + 48) as int) as char
    } else {
        ((n + 55) as int) as char
    }
}

/// The text for one byte: itself when unreserved, else `%` and two upper-case hex digits.
pub open spec fn encode_byte(b: u8) -> Seq<char> {
    if is_unreserved(b) {
        seq![(b as int) as char]
    } else {
        seq!['%', hex_digit(b / 16), hex_digit(b % 16)]
    }
}

pub open spec fn encode_bytes(bs: Seq<u8>) -> Seq<char>
    decreases bs.len(),
{
    if bs.len() == 0 {
        Seq::empty()
    } else {
        encode_bytes(bs.drop_last()) + encode_byte(bs.last())
    }
}

/// Percent-encoding of the UTF-8 bytes of a text.
pub open spec fn url_encode_spec(s: Seq<char>) -> Seq<char> {
    encode_bytes(vstd::utf8::encode_utf8(s))
}

fn hex_char(n: u8) -> (c: char)
    requires
        n < 16,
    ensures
        c == hex_digit(n),
{
    if n < 10 {
        (n + 48) as char
    } else {
        (n + 55) as char
    }
}

fn urlencoding(value: &str) -> (r: String)
    ensures
        r@ == url_encode_spec(value@),
{
    let bytes = value.as_bytes();
    let ghost bs = bytes@;
    assert(bs == vstd::utf8::encode_utf8(value@));
    let mut encoded = String::new();
    let mut i: usize = 0;
    while i < bytes.len()
        invariant
            bs == bytes@,
            i <= bs.len(),
            encoded@ == encode_bytes(bs.take(i as int)),
        decreases bytes.len() - i,
    {
        let b = bytes[i];
        if (65 <= b && b <= 90) || (97 <= b && b <= 122) || (48 <= b && b <= 57) || b == 45 || b
            == 46 || b == 95 || b == 126 {
            push_char(&mut encoded, b as char);
        } else {
            push_char(&mut encoded, '%');
            push_char(&mut encoded, hex_char(b / 16));
            push_char(&mut encoded, hex_char(b % 16));
        }
        proof {
            assert(bs.take(i + 1).drop_last() =~= bs.take(i as int));
            assert(bs.take(i + 1).last() == b);
        }
        i += 1;
        assert(encoded@ =~= encode_bytes(bs.take(i as int)));
    }
    assert(bs.take(bs.len() as int) =~= bs);
    encoded
}

/// The characters that percent-encoding can produce.
pub open spec fn is_url_safe_char(c: char) -> bool {
    ||| 'A' <= c <= 'Z'
    ||| 'a' <= c <= 'z'
    ||| '0' <= c <= '9'
    ||| c == '-'
    ||| c == '.'
    ||| c == '_'
    ||| c == '~'
    ||| c == '%'
}

/// Percent-encoded text holds no `/`, `?`, `&`, `#` or space: only unreserved characters, `%`
/// and hex digits, so an encoded segment never splits a URL path or query.
pub proof fn lemma_encoded_is_url_safe(bs: Seq<u8>)
    ensures
        forall|i: int| 0 <= i < encode_bytes(bs).len() ==> is_url_safe_char(
            #[trigger] encode_bytes(bs)[i],
        ),
    decreases bs.len(),
{
    if bs.len() > 0 {
        lemma_encoded_is_url_safe(bs.drop_last());
        let pre = encode_bytes(bs.drop_last());
        let last = encode_byte(bs.last());
        assert(encode_bytes(bs) == pre + last);
        assert forall|i: int| 0 <= i < last.len() implies is_url_safe_char(#[trigger] last[i]) by {
            let b = bs.last();
            if !is_unreserved(b) {
                assert(b / 16 < 16 && b % 16 < 16);
            }
        }
        assert forall|i: int| 0 <= i < encode_bytes(bs).len() implies is_url_safe_char(
            #[trigger] encode_bytes(bs)[i],
        ) by {
            if i < pre.len() {
                assert(encode_bytes(bs)[i] == pre[i]);
            } else {
                assert(encode_bytes(bs)[i] == last[i - pre.len()]);
            }
        }
    }
}

// ---------------------------------------------------------------------------
// Request URLs
// ---------------------------------------------------------------------------

pub open spec fn account_url_spec(host: Seq<char>, game_name: Seq<char>, tag_line: Seq<char>) -> Seq<
    char,
> {
    "https://"@ + host + "/riot/account/v1/accounts/by-riot-id/"@ + url_encode_spec(game_name)
        + "/"@ + url_encode_spec(tag_line)
}

pub open spec fn match_ids_url_spec(
    host: Seq<char>,
    puuid: Seq<char>,
    start_time: Option<i64>,
    queue: Option<u16>,
    count: u8,
) -> Seq<char> {
    "https://"@ + host + "/lol/match/v5/matches/by-puuid/"@ + url_encode_spec(puuid)
        + "/ids?start=0&count="@ + decimal(count as nat) + match start_time {
        Some(t) => "&startTime="@ + signed_decimal(t as int),
        None => Seq::empty(),
    } + match queue {
        Some(q) => "&queue="@ + decimal(q as nat),
        None => Seq::empty(),
    }
}

pub fn account_by_riot_id_url(regional_route: &str, game_name: &str, tag_line: &str) -> (r: Result<
    String,
    RiotRouteError,
>)
    ensures
        match regional_host_spec(regional_route@) {
            Ok(host) => r matches Ok(url) && url@ == account_url_spec(host, game_name@, tag_line@),
            Err(e) => r matches Err(err) && err@ == e,
        },
{
    let host = regional_host(regional_route)?;
    let mut url = String::new();
    append(&mut url, "https://");
    append(&mut url, host);
    append(&mut url, "/riot/account/v1/accounts/by-riot-id/");
    let name = urlencoding(game_name);
    append(&mut url, name.as_str());
    append(&mut url, "/");
    let tag = urlencoding(tag_line);
    append(&mut url, tag.as_str());
    Ok(url)
}

pub fn match_ids_by_puuid_url(
    regional_route: &str,
    puuid: &str,
    start_time: Option<i64>,
    queue: Option<u16>,
    count: u8,
) -> (r: Result<String, RiotRouteError>)
    ensures
        match regional_host_spec(regional_route@) {
            Ok(host) => r matches Ok(url) && url@ == match_ids_url_spec(
                host,
                puuid@,
                start_time,
                queue,
                count,
            ),
            Err(e) => r matches Err(err) && err@ == e,
        },
{
    let host = regional_host(regional_route)?;
    let mut url = String::new();
    append(&mut url, "https://");
    append(&mut url, host);
    append(&mut url, "/lol/match/v5/matches/by-puuid/");
    let id = urlencoding(puuid);
    append(&mut url, id.as_str());
    append(&mut url, "/ids?start=0&count=");
    let c = u64_to_decimal(count as u64);
    append(&mut url, c.as_str());
    let ghost base = url@;
    match start_time {
        Some(t) => {
            append(&mut url, "&startTime=");
            let text = i64_to_decimal(t);
            append(&mut url, text.as_str());
        },
        None => {},
    }
    let ghost with_start = url@;
    match queue {
        Some(q) => {
            append(&mut url, "&queue=");
            let text = u64_to_decimal(q as u64);
            append(&mut url, text.as_str());
        },
        None => {},
    }
    assert(url@ =~= match_ids_url_spec(host@, puuid@, start_time, queue, count));
    Ok(url)
}

pub fn match_detail_url(regional_route: &str, match_id: &str) -> (r: Result<String, RiotRouteError>)
    ensures
        match regional_host_spec(regional_route@) {
            Ok(host) => r matches Ok(url) && url@ == "https://"@ + host + "/lol/match/v5/matches/"@
                + url_encode_spec(match_id@),
            Err(e) => r matches Err(err) && err@ == e,
        },
{
    let host = regional_host(regional_route)?;
    let mut url = String::new();
    append(&mut url, "https://");
    append(&mut url, host);
    append(&mut url, "/lol/match/v5/matches/");
    let id = urlencoding(match_id);
    append(&mut url, id.as_str());
    Ok(url)
}

pub fn active_game_url(platform_route: &str, puuid: &str) -> (r: Result<String, RiotRouteError>)
    ensures
        match platform_host_spec(platform_route@) {
            Ok(host) => r matches Ok(url) && url@ == "https://"@ + host
                + "/lol/spectator/v5/active-games/by-summoner/"@ + url_encode_spec(puuid@),
            Err(e) => r matches Err(err) && err@ == e,
        },
{
    let host = platform_host(platform_route)?;
    let mut url = String::new();
    append(&mut url, "https://");
    append(&mut url, host);
    append(&mut url, "/lol/spectator/v5/active-games/by-summoner/");
    let id = urlencoding(puuid);
    append(&mut url, id.as_str());
    Ok(url)
}

/// Every platform code that match-id normalization produces has a platform host and a Match-V5
/// regional route, and that route has a host.
pub proof fn lemma_platform_codes_are_routable(code: Seq<char>)
    requires
        is_platform_code(code),
    ensures
        platform_host_spec(code) is Ok,
        match_region_spec(code) is Ok,
        regional_host_spec(match_region_spec(code)->Ok_0) is Ok,
{
    lemma_platform_code_props(code);
    reveal_strlit("AMERICAS");
    reveal_strlit("EUROPE");
    reveal_strlit("ASIA");
    reveal_strlit("SEA");
    let route = match_region_spec(code)->Ok_0;
    assert(upper_seq(route) =~= route);
}

/// Platform normalization: a region name normalizes as its trimmed, upper-cased form does;
/// what it gives is a platform code that normalizes to itself and has a platform host and a
/// Match-V5 regional route; an unknown name is refused as that trimmed, upper-cased form.
pub proof fn lemma_platform_normalization(value: Seq<char>)
    ensures
        normalize_platform_spec(value) == normalize_platform_spec(upper_seq(trim_seq(value))),
        normalize_platform_spec(value) matches Ok(p) ==> {
            &&& is_platform_code(p)
            &&& normalize_platform_spec(p) == Ok::<Seq<char>, MatchIdFault>(p)
            &&& platform_host_spec(p) is Ok
            &&& match_region_spec(p) is Ok
        },
        normalize_platform_spec(value) matches Err(e) ==> e == MatchIdFault::UnknownRegion(
            upper_seq(trim_seq(value)),
        ),
{
    lemma_trim_upper_trim(value);
    lemma_normalized_platform_is_code(value);
    match normalize_platform_spec(value) {
        Ok(p) => {
            lemma_normalize_platform_idempotent(value);
            lemma_platform_codes_are_routable(p);
        },
        Err(_) => {},
    }
}

/// Riot's table of Match-V5 regional routes: NA1, BR1, LA1 and LA2 are served from AMERICAS;
/// EUW1, EUN1, TR1 and RU from EUROPE; KR and JP1 from ASIA; OC1, PH2, SG2, TH2, TW2 and VN2
/// from SEA; and any other platform has no route.
pub proof fn lemma_match_routes_by_region(platform: Seq<char>)
    ensures
        ({
            let key = upper_seq(platform);
            &&& match_region_spec(platform) == Ok::<Seq<char>, RouteFault>("AMERICAS"@) <==> (key
                == "NA1"@ || key == "BR1"@ || key == "LA1"@ || key == "LA2"@)
            &&& match_region_spec(platform) == Ok::<Seq<char>, RouteFault>("EUROPE"@) <==> (key
                == "EUW1"@ || key == "EUN1"@ || key == "TR1"@ || key == "RU"@)
            &&& match_region_spec(platform) == Ok::<Seq<char>, RouteFault>("ASIA"@) <==> (key
                == "KR"@ || key == "JP1"@)
            &&& match_region_spec(platform) == Ok::<Seq<char>, RouteFault>("SEA"@) <==> (key
                == "OC1"@ || key == "PH2"@ || key == "SG2"@ || key == "TH2"@ || key == "TW2"@
                || key == "VN2"@)
            &&& match_region_spec(platform) is Err <==> !is_platform_code(key)
        }),
{
    crate::domain::match_id::lemma_platform_literals();
    reveal_strlit("AMERICAS");
    reveal_strlit("EUROPE");
    reveal_strlit("ASIA");
    reveal_strlit("SEA");
    assert("AMERICAS"@.len() == 8 && "EUROPE"@.len() == 6 && "ASIA"@.len() == 4 && "SEA"@.len()
        == 3);
}

/// The shape of the text a host is made of: `key` in lower case, then `.api.riotgames.com`.
pub open spec fn is_riot_host(h: Seq<char>, key: Seq<char>) -> bool {
    &&& h.len() == key.len() + 18
    &&& upper_seq(h.take(key.len() as int)) == key
    &&& forall|i: int| 0 <= i < key.len() ==> !is_ascii_upper(#[trigger] h[i])
    &&& h.skip(key.len() as int) == ".api.riotgames.com"@
}

/// Every platform code, and nothing else, has a platform host, named after the platform: the
/// code in lower case followed by `.api.riotgames.com` (for instance `kr.api.riotgames.com`).
pub proof fn lemma_platform_hosts(platform: Seq<char>)
    ensures
        platform_host_spec(platform) is Ok <==> is_platform_code(upper_seq(platform)),
        platform_host_spec(platform) matches Ok(h) ==> is_riot_host(h, upper_seq(platform)),
{
    crate::domain::match_id::lemma_platform_literals();
    reveal_strlit(".api.riotgames.com");
    let key = upper_seq(platform);
    if key == "BR1"@ {
        reveal_strlit("br1.api.riotgames.com");
        let h = "br1.api.riotgames.com"@;
        assert(h.skip(3) =~= ".api.riotgames.com"@);
        assert(upper_seq(h.take(3)) =~= key);
        assert(forall|i: int| 0 <= i < 3 ==> !is_ascii_upper(#[trigger] h[i]));
    }
    if key == "EUN1"@ {
        reveal_strlit("eun1.api.riotgames.com");
        let h = "eun1.api.riotgames.com"@;
        assert(h.skip(4) =~= ".api.riotgames.com"@);
        assert(upper_seq(h.take(4)) =~= key);
        assert(forall|i: int| 0 <= i < 4 ==> !is_ascii_upper(#[trigger] h[i]));
    }
    if key == "EUW1"@ {
        reveal_strlit("euw1.api.riotgames.com");
        let h = "euw1.api.riotgames.com"@;
        assert(h.skip(4) =~= ".api.riotgames.com"@);
        assert(upper_seq(h.take(4)) =~= key);
        assert(forall|i: int| 0 <= i < 4 ==> !is_ascii_upper(#[trigger] h[i]));
    }
    if key == "JP1"@ {
        reveal_strlit("jp1.api.riotgames.com");
        let h = "jp1.api.riotgames.com"@;
        assert(h.skip(3) =~= ".api.riotgames.com"@);
        assert(upper_seq(h.take(3)) =~= key);
        assert(forall|i: int| 0 <= i < 3 ==> !is_ascii_upper(#[trigger] h[i]));
    }
    if key == "KR"@ {
        reveal_strlit("kr.api.riotgames.com");
        let h = "kr.api.riotgames.com"@;
        assert(h.skip(2) =~= ".api.riotgames.com"@);
        assert(upper_seq(h.take(2)) =~= key);
        assert(forall|i: int| 0 <= i < 2 ==> !is_ascii_upper(#[trigger] h[i]));
    }
    if key == "LA1"@ {
        reveal_strlit("la1.api.riotgames.com");
        let h = "la1.api.riotgames.com"@;
        assert(h.skip(3) =~= ".api.riotgames.com"@);
        assert(upper_seq(h.take(3)) =~= key);
        assert(forall|i: int| 0 <= i < 3 ==> !is_ascii_upper(#[trigger] h[i]));
    }
    if key == "LA2"@ {
        reveal_strlit("la2.api.riotgames.com");
        let h = "la2.api.riotgames.com"@;
        assert(h.skip(3) =~= ".api.riotgames.com"@);
        assert(upper_seq(h.take(3)) =~= key);
        assert(forall|i: int| 0 <= i < 3 ==> !is_ascii_upper(#[trigger] h[i]));
    }
    if key == "NA1"@ {
        reveal_strlit("na1.api.riotgames.com");
        let h = "na1.api.riotgames.com"@;
        assert(h.skip(3) =~= ".api.riotgames.com"@);
        assert(upper_seq(h.take(3)) =~= key);
        assert(forall|i: int| 0 <= i < 3 ==> !is_ascii_upper(#[trigger] h[i]));
    }
    if key == "OC1"@ {
        reveal_strlit("oc1.api.riotgames.com");
        let h = "oc1.api.riotgames.com"@;
        assert(h.skip(3) =~= ".api.riotgames.com"@);
        assert(upper_seq(h.take(3)) =~= key);
        assert(forall|i: int| 0 <= i < 3 ==> !is_ascii_upper(#[trigger] h[i]));
    }
    if key == "TR1"@ {
        reveal_strlit("tr1.api.riotgames.com");
        let h = "tr1.api.riotgames.com"@;
        assert(h.skip(3) =~= ".api.riotgames.com"@);
        assert(upper_seq(h.take(3)) =~= key);
        assert(forall|i: int| 0 <= i < 3 ==> !is_ascii_upper(#[trigger] h[i]));
    }
    if key == "RU"@ {
        reveal_strlit("ru.api.riotgames.com");
        let h = "ru.api.riotgames.com"@;
        assert(h.skip(2) =~= ".api.riotgames.com"@);
        assert(upper_seq(h.take(2)) =~= key);
        assert(forall|i: int| 0 <= i < 2 ==> !is_ascii_upper(#[trigger] h[i]));
    }
    if key == "PH2"@ {
        reveal_strlit("ph2.api.riotgames.com");
        let h = "ph2.api.riotgames.com"@;
        assert(h.skip(3) =~= ".api.riotgames.com"@);
        assert(upper_seq(h.take(3)) =~= key);
        assert(forall|i: int| 0 <= i < 3 ==> !is_ascii_upper(#[trigger] h[i]));
    }
    if key == "SG2"@ {
        reveal_strlit("sg2.api.riotgames.com");
        let h = "sg2.api.riotgames.com"@;
        assert(h.skip(3) =~= ".api.riotgames.com"@);
        assert(upper_seq(h.take(3)) =~= key);
        assert(forall|i: int| 0 <= i < 3 ==> !is_ascii_upper(#[trigger] h[i]));
    }
    if key == "TH2"@ {
        reveal_strlit("th2.api.riotgames.com");
        let h = "th2.api.riotgames.com"@;
        assert(h.skip(3) =~= ".api.riotgames.com"@);
        assert(upper_seq(h.take(3)) =~= key);
        assert(forall|i: int| 0 <= i < 3 ==> !is_ascii_upper(#[trigger] h[i]));
    }
    if key == "TW2"@ {
        reveal_strlit("tw2.api.riotgames.com");
        let h = "tw2.api.riotgames.com"@;
        assert(h.skip(3) =~= ".api.riotgames.com"@);
        assert(upper_seq(h.take(3)) =~= key);
        assert(forall|i: int| 0 <= i < 3 ==> !is_ascii_upper(#[trigger] h[i]));
    }
    if key == "VN2"@ {
        reveal_strlit("vn2.api.riotgames.com");
        let h = "vn2.api.riotgames.com"@;
        assert(h.skip(3) =~= ".api.riotgames.com"@);
        assert(upper_seq(h.take(3)) =~= key);
        assert(forall|i: int| 0 <= i < 3 ==> !is_ascii_upper(#[trigger] h[i]));
    }
}

/// Every regional route, and nothing else, has a host, named after the route: the route in
/// lower case followed by `.api.riotgames.com` (for instance `asia.api.riotgames.com`).
pub proof fn lemma_regional_hosts(route: Seq<char>)
    ensures
        regional_host_spec(route) is Ok <==> (upper_seq(route) == "AMERICAS"@ || upper_seq(route)
            == "ASIA"@ || upper_seq(route) == "EUROPE"@ || upper_seq(route) == "SEA"@),
        regional_host_spec(route) matches Ok(h) ==> is_riot_host(h, upper_seq(route)),
{
    reveal_strlit("AMERICAS");
    reveal_strlit("EUROPE");
    reveal_strlit("ASIA");
    reveal_strlit("SEA");
    reveal_strlit(".api.riotgames.com");
    let key = upper_seq(route);
    if key == "AMERICAS"@ {
        reveal_strlit("americas.api.riotgames.com");
        let h = "americas.api.riotgames.com"@;
        assert(h.skip(8) =~= ".api.riotgames.com"@);
        assert(upper_seq(h.take(8)) =~= key);
        assert(forall|i: int| 0 <= i < 8 ==> !is_ascii_upper(#[trigger] h[i]));
    }
    if key == "ASIA"@ {
        reveal_strlit("asia.api.riotgames.com");
        let h = "asia.api.riotgames.com"@;
        assert(h.skip(4) =~= ".api.riotgames.com"@);
        assert(upper_seq(h.take(4)) =~= key);
        assert(forall|i: int| 0 <= i < 4 ==> !is_ascii_upper(#[trigger] h[i]));
    }
    if key == "EUROPE"@ {
        reveal_strlit("europe.api.riotgames.com");
        let h = "europe.api.riotgames.com"@;
        assert(h.skip(6) =~= ".api.riotgames.com"@);
        assert(upper_seq(h.take(6)) =~= key);
        assert(forall|i: int| 0 <= i < 6 ==> !is_ascii_upper(#[trigger] h[i]));
    }
    if key == "SEA"@ {
        reveal_strlit("sea.api.riotgames.com");
        let h = "sea.api.riotgames.com"@;
        assert(h.skip(3) =~= ".api.riotgames.com"@);
        assert(upper_seq(h.take(3)) =~= key);
        assert(forall|i: int| 0 <= i < 3 ==> !is_ascii_upper(#[trigger] h[i]));
    }
}

} // verus!
