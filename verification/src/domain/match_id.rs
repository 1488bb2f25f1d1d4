//! Riot match ids (`NA1_4901234567`) and Riot platform names.
use crate::domain::ids::RiotMatchId;
use crate::text::{all_alphanumeric, all_digits, append, chars_all_alphanumeric, chars_all_digits, chars_of, first_index_of, is_whitespace, leading_ws, push_char, split_once, split_once_seq, str_contains_char, str_eq, to_ascii_uppercase, trim, trailing_ws, trim_seq, upper_seq};
use vstd::prelude::*;

verus! {

#[derive(Debug, Clone, PartialEq, Eq)]
pub struct ParsedRiotMatchId {
    pub platform: String,
    pub numeric_id: String,
}

#[derive(Debug)]
pub enum MatchIdError {
    InvalidShape,
    EmptySegment,
    NonNumeric,
    UnknownRegion(String),
    RegionMismatch { region: String, resolved: String, platform: String },
}

/// What a `MatchIdError` says, with its texts taken by their characters.
pub enum MatchIdFault {
    InvalidShape,
    EmptySegment,
    NonNumeric,
    UnknownRegion(Seq<char>),
    RegionMismatch { region: Seq<char>, resolved: Seq<char>, platform: Seq<char> },
}

impl View for MatchIdError {
    type V = MatchIdFault;

    open spec fn view(&self) -> MatchIdFault {
        match self {
            MatchIdError::InvalidShape => MatchIdFault::InvalidShape,
            MatchIdError::EmptySegment => MatchIdFault::EmptySegment,
            MatchIdError::NonNumeric => MatchIdFault::NonNumeric,
            MatchIdError::UnknownRegion(r) => MatchIdFault::UnknownRegion(r@),
            MatchIdError::RegionMismatch { region, resolved, platform } =>
                MatchIdFault::RegionMismatch {
                    region: region@,
                    resolved: resolved@,
                    platform: platform@,
                },
        }
    }
}

pub open spec fn fault_message(f: MatchIdFault) -> Seq<char> {
    match f {
        MatchIdFault::InvalidShape =>
            "riot match id must look like NA1_4901234567 or a numeric game id"@,
        MatchIdFault::EmptySegment => "riot match id has an empty platform or numeric segment"@,
        MatchIdFault::NonNumeric => "riot match id numeric segment must contain only digits"@,
        MatchIdFault::UnknownRegion(r) => "unknown riot region `"@ + r + "`"@,
        MatchIdFault::RegionMismatch { region, resolved, platform } => "riot region `"@ + region
            + "` resolves to `"@ + resolved + "`, but match id uses `"@ + platform + "`"@,
    }
}

impl MatchIdError {
    /// The text shown to users for this error.
    pub fn message(&self) -> (r: String)
        ensures
            r@ == fault_message(self@),
    {
        let mut s = String::new();
        match self {
            MatchIdError::InvalidShape => {
                append(&mut s, "riot match id must look like NA1_4901234567 or a numeric game id");
            },
            MatchIdError::EmptySegment => {
                append(&mut s, "riot match id has an empty platform or numeric segment");
            },
            MatchIdError::NonNumeric => {
                append(&mut s, "riot match id numeric segment must contain only digits");
            },
            MatchIdError::UnknownRegion(r) => {
                append(&mut s, "unknown riot region `");
                append(&mut s, r.as_str());
                append(&mut s, "`");
            },
            MatchIdError::RegionMismatch { region, resolved, platform } => {
                append(&mut s, "riot region `");
                append(&mut s, region.as_str());
                append(&mut s, "` resolves to `");
                append(&mut s, resolved.as_str());
                append(&mut s, "`, but match id uses `");
                append(&mut s, platform.as_str());
                append(&mut s, "`");
            },
        }
        s
    }
}

/// The shape check of a full match id: a non-empty alphanumeric platform, `_`, and a non-empty
/// run of digits. The split happens at the first `_`.
pub open spec fn parse_match_id_spec(s: Seq<char>) -> Result<(Seq<char>, Seq<char>), MatchIdFault> {
    match split_once_seq(s, '_') {
        None => Err(MatchIdFault::InvalidShape),
        Some((platform, numeric)) => if platform.len() == 0 || numeric.len() == 0 {
            Err(MatchIdFault::EmptySegment)
        } else if !all_alphanumeric(platform) {
            Err(MatchIdFault::InvalidShape)
        } else if !all_digits(numeric) {
            Err(MatchIdFault::NonNumeric)
        } else {
            Ok((platform, numeric))
        },
    }
}

/// The platform code that an upper-cased region name or alias stands for.
pub open spec fn platform_alias(s: Seq<char>) -> Option<Seq<char>> {
    if s == "BR"@ || s == "BR1"@ {
        Some("BR1"@)
    } else if s == "EUNE"@ || s == "EUN"@ || s == "EUN1"@ {
        Some("EUN1"@)
    } else if s == "EUW"@ || s == "EUW1"@ {
        Some("EUW1"@)
    } else if s == "JP"@ || s == "JP1"@ {
        Some("JP1"@)
    } else if s == "KR"@ {
        Some("KR"@)
    } else if s == "LAN"@ || s == "LA1"@ {
        Some("LA1"@)
    } else if s == "LAS"@ || s == "LA2"@ {
        Some("LA2"@)
    } else if s == "NA"@ || s == "NA1"@ {
        Some("NA1"@)
    } else if s == "OC"@ || s == "OCE"@ || s == "OC1"@ {
        Some("OC1"@)
    } else if s == "TR"@ || s == "TR1"@ {
        Some("TR1"@)
    } else if s == "RU"@ {
        Some("RU"@)
    } else if s == "PH"@ || s == "PH2"@ {
        Some("PH2"@)
    } else if s == "SG"@ || s == "SG2"@ {
        Some("SG2"@)
    } else if s == "TH"@ || s == "TH2"@ {
        Some("TH2"@)
    } else if s == "TW"@ || s == "TW2"@ {
        Some("TW2"@)
    } else if s == "VN"@ || s == "VN2"@ {
        Some("VN2"@)
    } else {
        None
    }
}

/// The sixteen platform codes that normalization produces.
pub open spec fn is_platform_code(s: Seq<char>) -> bool {
    ||| s == "BR1"@
    ||| s == "EUN1"@
    ||| s == "EUW1"@
    ||| s == "JP1"@
    ||| s == "KR"@
    ||| s == "LA1"@
    ||| s == "LA2"@
    ||| s == "NA1"@
    ||| s == "OC1"@
    ||| s == "TR1"@
    ||| s == "RU"@
    ||| s == "PH2"@
    ||| s == "SG2"@
    ||| s == "TH2"@
    ||| s == "TW2"@
    ||| s == "VN2"@
}

/// Region names are trimmed and upper-cased, then looked up; an unknown one is reported as it
/// reads after trimming and upper-casing.
pub open spec fn normalize_platform_spec(value: Seq<char>) -> Result<Seq<char>, MatchIdFault> {
    let key = upper_seq(trim_seq(value));
    match platform_alias(key) {
        Some(code) => Ok(code),
        None => Err(MatchIdFault::UnknownRegion(key)),
    }
}

/// Normalization of a user-typed match id: a full id keeps its numeric part and gets its
/// platform normalized (and checked against `region` when one is given); a bare numeric game id
/// gets the platform of `region`, or of `NA` when none is given.
pub open spec fn normalize_match_id_spec(value: Seq<char>, region: Option<Seq<char>>) -> Result<
    Seq<char>,
    MatchIdFault,
> {
    let v = trim_seq(value);
    if v.len() == 0 {
        Err(MatchIdFault::InvalidShape)
    } else if first_index_of(v, '_') is Some {
        match parse_match_id_spec(v) {
            Err(e) => Err(e),
            Ok((platform, numeric)) => match normalize_platform_spec(platform) {
                Err(e) => Err(e),
                Ok(code) => match region {
                    None => Ok(code + seq!['_'] + numeric),
                    Some(r) => match normalize_platform_spec(r) {
                        Err(e) => Err(e),
                        Ok(resolved) => if resolved != code {
                            Err(
                                MatchIdFault::RegionMismatch {
                                    region: r,
                                    resolved,
                                    platform: code,
                                },
                            )
                        } else {
                            Ok(code + seq!['_'] + numeric)
                        },
                    },
                },
            },
        }
    } else if !all_digits(v) {
        Err(MatchIdFault::NonNumeric)
    } else {
        match normalize_platform_spec(
            match region {
                Some(r) => r,
                None => "NA"@,
            },
        ) {
            Err(e) => Err(e),
            Ok(code) => Ok(code + seq!['_'] + v),
        }
    }
}

pub fn parse_riot_match_id(value: &str) -> (r: Result<ParsedRiotMatchId, MatchIdError>)
    ensures
        match parse_match_id_spec(value@) {
            Ok((platform, numeric)) => r matches Ok(p) && p.platform@ == platform
                && p.numeric_id@ == numeric,
            Err(e) => r matches Err(err) && err@ == e,
        },
{
    let (platform, numeric_id) = match split_once(value, '_') {
        Some(parts) => parts,
        None => {
            return Err(MatchIdError::InvalidShape);
        },
    };
    let p = chars_of(platform.as_str());
    let n = chars_of(numeric_id.as_str());
    if p.len() == 0 || n.len() == 0 {
        return Err(MatchIdError::EmptySegment);
    }
    if !chars_all_alphanumeric(&p) {
        return Err(MatchIdError::InvalidShape);
    }
    if !chars_all_digits(&n) {
        return Err(MatchIdError::NonNumeric);
    }
    Ok(ParsedRiotMatchId { platform, numeric_id })
}

pub fn normalize_riot_platform(value: &str) -> (r: Result<String, MatchIdError>)
    ensures
        match normalize_platform_spec(value@) {
            Ok(code) => r matches Ok(s) && s@ == code,
            Err(e) => r matches Err(err) && err@ == e,
        },
{
    let trimmed = trim(value);
    let u = to_ascii_uppercase(trimmed.as_str());
    let k = u.as_str();
    let code = if str_eq(k, "BR") || str_eq(k, "BR1") {
        "BR1"
    } else if str_eq(k, "EUNE") || str_eq(k, "EUN") || str_eq(k, "EUN1") {
        "EUN1"
    } else if str_eq(k, "EUW") || str_eq(k, "EUW1") {
        "EUW1"
    } else if str_eq(k, "JP") || str_eq(k, "JP1") {
        "JP1"
    } else if str_eq(k, "KR") {
        "KR"
    } else if str_eq(k, "LAN") || str_eq(k, "LA1") {
        "LA1"
    } else if str_eq(k, "LAS") || str_eq(k, "LA2") {
        "LA2"
    } else if str_eq(k, "NA") || str_eq(k, "NA1") {
        "NA1"
    } else if str_eq(k, "OC") || str_eq(k, "OCE") || str_eq(k, "OC1") {
        "OC1"
    } else if str_eq(k, "TR") || str_eq(k, "TR1") {
        "TR1"
    } else if str_eq(k, "RU") {
        "RU"
    } else if str_eq(k, "PH") || str_eq(k, "PH2") {
        "PH2"
    } else if str_eq(k, "SG") || str_eq(k, "SG2") {
        "SG2"
    } else if str_eq(k, "TH") || str_eq(k, "TH2") {
        "TH2"
    } else if str_eq(k, "TW") || str_eq(k, "TW2") {
        "TW2"
    } else if str_eq(k, "VN") || str_eq(k, "VN2") {
        "VN2"
    } else {
        return Err(MatchIdError::UnknownRegion(u));
    };
    Ok(code.to_owned())
}

fn join_match_id(platform: &str, numeric: &str) -> (r: String)
    ensures
        r@ == platform@ + seq!['_'] + numeric@,
{
    let mut s = String::new();
    append(&mut s, platform);
    push_char(&mut s, '_');
    append(&mut s, numeric);
    s
}

pub fn normalize_riot_match_id(value: &str, region: Option<&str>) -> (r: Result<
    String,
    MatchIdError,
>)
    ensures
        match normalize_match_id_spec(
            value@,
            match region {
                Some(x) => Some(x@),
                None => None,
            },
        ) {
            Ok(id) => r matches Ok(s) && s@ == id,
            Err(e) => r matches Err(err) && err@ == e,
        },
{
    let trimmed = trim(value);
    let v = trimmed.as_str();
    let chars = chars_of(v);
    if chars.len() == 0 {
        return Err(MatchIdError::InvalidShape);
    }
    if str_contains_char(v, '_') {
        let parsed = parse_riot_match_id(v)?;
        let platform = normalize_riot_platform(parsed.platform.as_str())?;
        match region {
            Some(region) => {
                let resolved = normalize_riot_platform(region)?;
                if !str_eq(resolved.as_str(), platform.as_str()) {
                    return Err(
                        MatchIdError::RegionMismatch {
                            region: region.to_owned(),
                            resolved,
                            platform,
                        },
                    );
                }
            },
            None => {},
        }
        return Ok(join_match_id(platform.as_str(), parsed.numeric_id.as_str()));
    }
    if !chars_all_digits(&chars) {
        return Err(MatchIdError::NonNumeric);
    }
    let region_name = match region {
        Some(r) => r,
        None => "NA",
    };
    let platform = normalize_riot_platform(region_name)?;
    Ok(join_match_id(platform.as_str(), v))
}

impl RiotMatchId {
    /// Accepts exactly the values that pass the shape check of `parse_riot_match_id`.
    pub fn parse(value: &str) -> (r: Result<Self, MatchIdError>)
        ensures
            match parse_match_id_spec(value@) {
                Ok(_) => r matches Ok(id) && id@ == value@,
                Err(e) => r matches Err(err) && err@ == e,
            },
    {
        parse_riot_match_id(value)?;
        Ok(RiotMatchId::from_checked(value))
    }
}

/// The characters of every region alias and platform code.
pub(crate) proof fn lemma_platform_literals()
    ensures
        "BR"@.len() == 2 && "BR"@[0] == 'B' && "BR"@[1] == 'R',
        "BR1"@.len() == 3 && "BR1"@[0] == 'B' && "BR1"@[1] == 'R' && "BR1"@[2] == '1',
        "EUNE"@.len() == 4 && "EUNE"@[0] == 'E' && "EUNE"@[1] == 'U' && "EUNE"@[2] == 'N' && "EUNE"@[3] == 'E',
        "EUN"@.len() == 3 && "EUN"@[0] == 'E' && "EUN"@[1] == 'U' && "EUN"@[2] == 'N',
        "EUN1"@.len() == 4 && "EUN1"@[0] == 'E' && "EUN1"@[1] == 'U' && "EUN1"@[2] == 'N' && "EUN1"@[3] == '1',
        "EUW"@.len() == 3 && "EUW"@[0] == 'E' && "EUW"@[1] == 'U' && "EUW"@[2] == 'W',
        "EUW1"@.len() == 4 && "EUW1"@[0] == 'E' && "EUW1"@[1] == 'U' && "EUW1"@[2] == 'W' && "EUW1"@[3] == '1',
        "JP"@.len() == 2 && "JP"@[0] == 'J' && "JP"@[1] == 'P',
        "JP1"@.len() == 3 && "JP1"@[0] == 'J' && "JP1"@[1] == 'P' && "JP1"@[2] == '1',
        "KR"@.len() == 2 && "KR"@[0] == 'K' && "KR"@[1] == 'R',
        "LAN"@.len() == 3 && "LAN"@[0] == 'L' && "LAN"@[1] == 'A' && "LAN"@[2] == 'N',
        "LA1"@.len() == 3 && "LA1"@[0] == 'L' && "LA1"@[1] == 'A' && "LA1"@[2] == '1',
        "LAS"@.len() == 3 && "LAS"@[0] == 'L' && "LAS"@[1] == 'A' && "LAS"@[2] == 'S',
        "LA2"@.len() == 3 && "LA2"@[0] == 'L' && "LA2"@[1] == 'A' && "LA2"@[2] == '2',
        "NA"@.len() == 2 && "NA"@[0] == 'N' && "NA"@[1] == 'A',
        "NA1"@.len() == 3 && "NA1"@[0] == 'N' && "NA1"@[1] == 'A' && "NA1"@[2] == '1',
        "OC"@.len() == 2 && "OC"@[0] == 'O' && "OC"@[1] == 'C',
        "OCE"@.len() == 3 && "OCE"@[0] == 'O' && "OCE"@[1] == 'C' && "OCE"@[2] == 'E',
        "OC1"@.len() == 3 && "OC1"@[0] == 'O' && "OC1"@[1] == 'C' && "OC1"@[2] == '1',
        "TR"@.len() == 2 && "TR"@[0] == 'T' && "TR"@[1] == 'R',
        "TR1"@.len() == 3 && "TR1"@[0] == 'T' && "TR1"@[1] == 'R' && "TR1"@[2] == '1',
        "RU"@.len() == 2 && "RU"@[0] == 'R' && "RU"@[1] == 'U',
        "PH"@.len() == 2 && "PH"@[0] == 'P' && "PH"@[1] == 'H',
        "PH2"@.len() == 3 && "PH2"@[0] == 'P' && "PH2"@[1] == 'H' && "PH2"@[2] == '2',
        "SG"@.len() == 2 && "SG"@[0] == 'S' && "SG"@[1] == 'G',
        "SG2"@.len() == 3 && "SG2"@[0] == 'S' && "SG2"@[1] == 'G' && "SG2"@[2] == '2',
        "TH"@.len() == 2 && "TH"@[0] == 'T' && "TH"@[1] == 'H',
        "TH2"@.len() == 3 && "TH2"@[0] == 'T' && "TH2"@[1] == 'H' && "TH2"@[2] == '2',
        "TW"@.len() == 2 && "TW"@[0] == 'T' && "TW"@[1] == 'W',
        "TW2"@.len() == 3 && "TW2"@[0] == 'T' && "TW2"@[1] == 'W' && "TW2"@[2] == '2',
        "VN"@.len() == 2 && "VN"@[0] == 'V' && "VN"@[1] == 'N',
        "VN2"@.len() == 3 && "VN2"@[0] == 'V' && "VN2"@[1] == 'N' && "VN2"@[2] == '2',
{
    reveal_strlit("BR");
    reveal_strlit("BR1");
    reveal_strlit("EUNE");
    reveal_strlit("EUN");
    reveal_strlit("EUN1");
    reveal_strlit("EUW");
    reveal_strlit("EUW1");
    reveal_strlit("JP");
    reveal_strlit("JP1");
    reveal_strlit("KR");
    reveal_strlit("LAN");
    reveal_strlit("LA1");
    reveal_strlit("LAS");
    reveal_strlit("LA2");
    reveal_strlit("NA");
    reveal_strlit("NA1");
    reveal_strlit("OC");
    reveal_strlit("OCE");
    reveal_strlit("OC1");
    reveal_strlit("TR");
    reveal_strlit("TR1");
    reveal_strlit("RU");
    reveal_strlit("PH");
    reveal_strlit("PH2");
    reveal_strlit("SG");
    reveal_strlit("SG2");
    reveal_strlit("TH");
    reveal_strlit("TH2");
    reveal_strlit("TW");
    reveal_strlit("TW2");
    reveal_strlit("VN");
    reveal_strlit("VN2");
}

/// A character that can appear in a platform code.
spec fn is_code_char(c: char) -> bool {
    ('A' <= c && c <= 'Z') || ('0' <= c && c <= '9')
}

proof fn lemma_short_all_code_chars(s: Seq<char>)
    requires
        1 <= s.len() <= 4,
        is_code_char(s[0]),
        s.len() > 1 ==> is_code_char(s[1]),
        s.len() > 2 ==> is_code_char(s[2]),
        s.len() > 3 ==> is_code_char(s[3]),
    ensures
        forall|i: int| 0 <= i < s.len() ==> is_code_char(#[trigger] s[i]),
{
    assert forall|i: int| 0 <= i < s.len() implies is_code_char(#[trigger] s[i]) by {
        if i == 0 {
        } else if i == 1 {
        } else if i == 2 {
        } else {
            assert(i == 3);
        }
    }
}

proof fn lemma_code_chars_fixed(s: Seq<char>)
    requires
        s.len() >= 1,
        forall|i: int| 0 <= i < s.len() ==> is_code_char(#[trigger] s[i]),
    ensures
        all_alphanumeric(s),
        first_index_of(s, '_') is None,
        trim_seq(s) == s,
        upper_seq(s) == s,
{
    crate::text::lemma_first_index_of_props(s, '_');
    match first_index_of(s, '_') {
        Some(k) => {
            assert(is_code_char(s[k]));
        },
        None => {},
    }
    assert(!is_whitespace(s[0]));
    assert(leading_ws(s) == 0);
    assert(!is_whitespace(s.last())) by {
        assert(is_code_char(s[s.len() - 1]));
    }
    assert(trailing_ws(s) == 0);
    assert(s.subrange(0, s.len() as int) =~= s);
    assert(trim_seq(s) =~= s);
    assert(upper_seq(s) =~= s);
}

/// Facts about each platform code: it is non-empty, alphanumeric, holds no `_`, is unchanged
/// by trimming and upper-casing, and is its own alias.
pub proof fn lemma_platform_code_props(c: Seq<char>)
    requires
        is_platform_code(c),
    ensures
        c.len() >= 1,
        all_alphanumeric(c),
        first_index_of(c, '_') is None,
        trim_seq(c) == c,
        upper_seq(c) == c,
        platform_alias(c) == Some(c),
{
    lemma_platform_literals();
    lemma_short_all_code_chars(c);
    lemma_code_chars_fixed(c);
}

/// Normalizing a region name yields one of the platform codes.
pub proof fn lemma_normalized_platform_is_code(value: Seq<char>)
    ensures
        normalize_platform_spec(value) matches Ok(c) ==> is_platform_code(c),
{
}

/// Normalizing a platform is idempotent: a normalized platform normalizes to itself.
pub proof fn lemma_normalize_platform_idempotent(value: Seq<char>)
    requires
        normalize_platform_spec(value) is Ok,
    ensures
        normalize_platform_spec(normalize_platform_spec(value)->Ok_0) == normalize_platform_spec(
            value,
        ),
{
    let c = normalize_platform_spec(value)->Ok_0;
    lemma_platform_code_props(c);
}

proof fn lemma_split_after_code(code: Seq<char>, numeric: Seq<char>)
    requires
        first_index_of(code, '_') is None,
    ensures
        split_once_seq(code + seq!['_'] + numeric, '_') == Some((code, numeric)),
{
    let s = code + seq!['_'] + numeric;
    crate::text::lemma_first_index_of_props(code, '_');
    crate::text::lemma_first_index_of_props(s, '_');
    assert(s[code.len() as int] == '_');
    match first_index_of(s, '_') {
        Some(k) => {
            if k < code.len() {
                assert(s[k] == code[k]);
            }
            assert(k == code.len());
        },
        None => {},
    }
    assert(s.subrange(0, code.len() as int) =~= code);
    assert(s.subrange(code.len() as int + 1, s.len() as int) =~= numeric);
}

/// Every id that `normalize_riot_match_id` returns is a well-formed match id whose platform is a
/// platform code; normalizing it again, with no region or with the region it was made with,
/// gives it back unchanged; and its numeric part is what followed the first `_` of the trimmed
/// input, or the whole trimmed input when it had no `_`.
pub proof fn lemma_normalized_match_id_is_canonical(value: Seq<char>, region: Option<Seq<char>>)
    requires
        normalize_match_id_spec(value, region) is Ok,
    ensures
        ({
            let id = normalize_match_id_spec(value, region)->Ok_0;
            &&& parse_match_id_spec(id) matches Ok((platform, numeric)) && is_platform_code(
                platform,
            ) && id == platform + seq!['_'] + numeric
            &&& normalize_match_id_spec(id, None) == Ok::<Seq<char>, MatchIdFault>(id)
            &&& normalize_match_id_spec(id, region) == Ok::<Seq<char>, MatchIdFault>(id)
            &&& parse_match_id_spec(id) matches Ok((_, numeric)) && numeric == match split_once_seq(
                trim_seq(value),
                '_',
            ) {
                Some((_, n)) => n,
                None => trim_seq(value),
            }
        }),
{
    let v = trim_seq(value);
    let id = normalize_match_id_spec(value, region)->Ok_0;
    let (code, numeric) = if first_index_of(v, '_') is Some {
        let (p, n) = parse_match_id_spec(v)->Ok_0;
        (normalize_platform_spec(p)->Ok_0, n)
    } else {
        (normalize_platform_spec(
            match region {
                Some(r) => r,
                None => "NA"@,
            },
        )->Ok_0, v)
    };
    assert(id == code + seq!['_'] + numeric);
    assert(numeric.len() > 0 && all_digits(numeric));
    lemma_platform_code_props(code);
    lemma_split_after_code(code, numeric);
    assert(parse_match_id_spec(id) == Ok::<(Seq<char>, Seq<char>), MatchIdFault>((code, numeric)));
    // the id carries no whitespace at either end, so trimming keeps it
    assert(!is_whitespace(id[0])) by {
        assert(id[0] == code[0]);
    }
    assert(!is_whitespace(id.last())) by {
        assert(id.last() == numeric.last());
    }
    assert(leading_ws(id) == 0);
    assert(trailing_ws(id) == 0);
    assert(id.subrange(0, id.len() as int) =~= id);
    assert(trim_seq(id) =~= id);
    assert(id[code.len() as int] == '_');
    crate::text::lemma_first_index_of_props(id, '_');
    match region {
        Some(r) => {
            assert(normalize_platform_spec(r) == Ok::<Seq<char>, MatchIdFault>(code));
        },
        None => {},
    }
}

/// The region names each platform answers to, after trimming and upper-casing: BR and BR1 are
/// BR1; EUNE, EUN and EUN1 are EUN1; EUW and EUW1 are EUW1; JP and JP1 are JP1; KR is KR; LAN
/// and LA1 are LA1; LAS and LA2 are LA2; NA and NA1 are NA1; OC, OCE and OC1 are OC1; TR and
/// TR1 are TR1; RU is RU; PH, SG, TH, TW and VN with or without a 2 are PH2, SG2, TH2, TW2 and
/// VN2. Each platform is reached from exactly these names.
#[verifier::rlimit(50)]
pub proof fn lemma_region_aliases(value: Seq<char>)
    ensures
        ({
            let key = upper_seq(trim_seq(value));
            &&& normalize_platform_spec(value) == Ok::<Seq<char>, MatchIdFault>("BR1"@) <==> (key == "BR"@ || key == "BR1"@)
            &&& normalize_platform_spec(value) == Ok::<Seq<char>, MatchIdFault>("EUN1"@) <==> (key == "EUNE"@ || key == "EUN"@ || key == "EUN1"@)
            &&& normalize_platform_spec(value) == Ok::<Seq<char>, MatchIdFault>("EUW1"@) <==> (key == "EUW"@ || key == "EUW1"@)
            &&& normalize_platform_spec(value) == Ok::<Seq<char>, MatchIdFault>("JP1"@) <==> (key == "JP"@ || key == "JP1"@)
            &&& normalize_platform_spec(value) == Ok::<Seq<char>, MatchIdFault>("KR"@) <==> (key == "KR"@)
            &&& normalize_platform_spec(value) == Ok::<Seq<char>, MatchIdFault>("LA1"@) <==> (key == "LAN"@ || key == "LA1"@)
            &&& normalize_platform_spec(value) == Ok::<Seq<char>, MatchIdFault>("LA2"@) <==> (key == "LAS"@ || key == "LA2"@)
            &&& normalize_platform_spec(value) == Ok::<Seq<char>, MatchIdFault>("NA1"@) <==> (key == "NA"@ || key == "NA1"@)
            &&& normalize_platform_spec(value) == Ok::<Seq<char>, MatchIdFault>("OC1"@) <==> (key == "OC"@ || key == "OCE"@ || key == "OC1"@)
            &&& normalize_platform_spec(value) == Ok::<Seq<char>, MatchIdFault>("TR1"@) <==> (key == "TR"@ || key == "TR1"@)
            &&& normalize_platform_spec(value) == Ok::<Seq<char>, MatchIdFault>("RU"@) <==> (key == "RU"@)
            &&& normalize_platform_spec(value) == Ok::<Seq<char>, MatchIdFault>("PH2"@) <==> (key == "PH"@ || key == "PH2"@)
            &&& normalize_platform_spec(value) == Ok::<Seq<char>, MatchIdFault>("SG2"@) <==> (key == "SG"@ || key == "SG2"@)
            &&& normalize_platform_spec(value) == Ok::<Seq<char>, MatchIdFault>("TH2"@) <==> (key == "TH"@ || key == "TH2"@)
            &&& normalize_platform_spec(value) == Ok::<Seq<char>, MatchIdFault>("TW2"@) <==> (key == "TW"@ || key == "TW2"@)
            &&& normalize_platform_spec(value) == Ok::<Seq<char>, MatchIdFault>("VN2"@) <==> (key == "VN"@ || key == "VN2"@)
        }),
{
    lemma_platform_literals();
}

} // verus!
