//! The Worker's decisions: which endpoint a request reaches, what an interaction is answered,
//! how Riot lookups are read, and the Riot data turned into the shapes the handlers take.
use crate::cron::LiveGame;
use crate::discord::command::{parse_command, parse_command_spec, DiscordCommand};
use crate::discord::interaction::{actor_spec, Interaction, InteractionType};
use crate::discord::verify::VerifyError;
use crate::domain::match_id::{parse_match_id_spec, parse_riot_match_id};
use crate::domain::shuffle::Rng;
use crate::handlers::types::{CommandContext, ResolvedRiotMatch, ResolvedRiotParticipant};
use crate::riot::match_v5::{CurrentGameInfoDto, MatchDto, ParticipantDto};
use crate::riot::routing::{match_region_spec, match_regional_route_for_platform};
use crate::text::{
    append, i64_to_decimal, signed_decimal, to_ascii_uppercase, trim, trim_seq, upper_seq,
};
use crate::handlers::matches::clone_opt_string;
use vstd::prelude::*;

verus! {

/// What a build of the Worker for the host (not WebAssembly) offers.
pub fn host_build_placeholder() -> (r: &'static str)
    ensures
        r@ == "rsso-worker is meant to run on wasm32-unknown-unknown"@,
{
    "rsso-worker is meant to run on wasm32-unknown-unknown"
}

// ---------------------------------------------------------------------------
// Routing requests
// ---------------------------------------------------------------------------

#[derive(Debug, Clone, Copy, PartialEq, Eq, Structural)]
pub enum HttpMethod {
    Get,
    Head,
    Post,
    Other,
}

#[derive(Debug, Clone, Copy, PartialEq, Eq, Structural)]
pub enum Endpoint {
    Health,
    RiotTxt,
    Interactions,
    NotFound,
}

pub open spec fn endpoint_spec(method: HttpMethod, path: Seq<char>) -> Endpoint {
    if method == HttpMethod::Get && path == "/healthz"@ {
        Endpoint::Health
    } else if (method == HttpMethod::Get || method == HttpMethod::Head) && path == "/riot.txt"@ {
        Endpoint::RiotTxt
    } else if method == HttpMethod::Post && (path == "/interactions"@ || path
        == "/discord/interactions"@) {
        Endpoint::Interactions
    } else {
        Endpoint::NotFound
    }
}

/// Routing, endpoint by endpoint: Discord's interactions arrive by `POST` at `/interactions` or
/// `/discord/interactions` and nowhere else; the health check answers `GET /healthz`; the Riot
/// verification file answers `GET` and `HEAD /riot.txt`; every other request is not found.
pub proof fn lemma_routes(method: HttpMethod, path: Seq<char>)
    ensures
        endpoint_spec(method, path) == Endpoint::Interactions <==> (method == HttpMethod::Post && (
        path == "/interactions"@ || path == "/discord/interactions"@)),
        endpoint_spec(method, path) == Endpoint::Health <==> (method == HttpMethod::Get && path
            == "/healthz"@),
        endpoint_spec(method, path) == Endpoint::RiotTxt <==> ((method == HttpMethod::Get
            || method == HttpMethod::Head) && path == "/riot.txt"@),
{
    reveal_strlit("/healthz");
    reveal_strlit("/riot.txt");
    reveal_strlit("/interactions");
    reveal_strlit("/discord/interactions");
    assert("/healthz"@ != "/riot.txt"@) by {
        assert("/healthz"@[1] != "/riot.txt"@[1]);
    }
}

/// `GET /healthz`, `GET` or `HEAD /riot.txt`, and `POST` to `/interactions` or
/// `/discord/interactions`; anything else is not found.
pub fn route(method: HttpMethod, path: &str) -> (r: Endpoint)
    ensures
        r == endpoint_spec(method, path@),
{
    if method == HttpMethod::Get && crate::text::str_eq(path, "/healthz") {
        Endpoint::Health
    } else if (method == HttpMethod::Get || method == HttpMethod::Head) && crate::text::str_eq(
        path,
        "/riot.txt",
    ) {
        Endpoint::RiotTxt
    } else if method == HttpMethod::Post && (crate::text::str_eq(path, "/interactions")
        || crate::text::str_eq(path, "/discord/interactions")) {
        Endpoint::Interactions
    } else {
        Endpoint::NotFound
    }
}

/// The body of `/riot.txt`: the configured text, trimmed, and a newline; `None` when nothing
/// but whitespace is configured.
pub fn riot_txt_body(configured: Option<&str>) -> (r: Option<String>)
    ensures
        match configured {
            None => r is None,
            Some(v) => if trim_seq(v@).len() == 0 {
                r is None
            } else {
                r matches Some(b) && b@ == trim_seq(v@).push('\n')
            },
        },
{
    match configured {
        None => None,
        Some(v) => {
            let t = trim(v);
            if crate::text::chars_of(t.as_str()).len() == 0 {
                None
            } else {
                let mut b = t;
                crate::text::push_char(&mut b, '\n');
                Some(b)
            }
        },
    }
}

// ---------------------------------------------------------------------------
// Interactions
// ---------------------------------------------------------------------------

/// `unauthorized: <why>`, the text of a refused request.
pub fn unauthorized_text(error: VerifyError) -> (r: String)
    ensures
        r@ == "unauthorized: "@ + error.message_spec(),
{
    let mut s = String::new();
    append(&mut s, "unauthorized: ");
    append(&mut s, error.message());
    s
}

/// How a request whose signature check failed is answered: status 401 with the reason; `None`
/// when the check passed.
pub fn request_refusal(verified: Result<(), VerifyError>) -> (r: Option<(u16, String)>)
    ensures
        match verified {
            Ok(()) => r is None,
            Err(e) => (r matches Some((code, text)) && code == 401 && text@ == "unauthorized: "@
                + e.message_spec()),
        },
{
    match verified {
        Ok(()) => None,
        Err(e) => Some((401, unauthorized_text(e))),
    }
}

/// How an interaction is answered.
#[derive(Debug)]
pub enum InteractionPlan {
    /// Answer Discord's ping.
    Pong,
    /// Answer at once with an ephemeral message.
    Message(String),
    /// Defer the answer and run the command in the background.
    Run { command: DiscordCommand, context: CommandContext },
}

/// A ping is answered with a pong. Otherwise the command must parse, and the interaction must
/// come from a guild channel with a known actor; then the command runs at `now`.
pub open spec fn plan_ok(p: InteractionPlan, i: Interaction, now: i64) -> bool {
    if i.kind == InteractionType::Ping {
        p is Pong
    } else {
        match i.data {
            None => p matches InteractionPlan::Message(m) && m@ == "Missing command data."@,
            Some(data) => match parse_command_spec(data.name@, data.options@) {
                Err(f) => p matches InteractionPlan::Message(m) && m@ == "Command error: "@
                    + crate::discord::command::command_fault_message(f),
                Ok(c) => match (i.guild_id, i.channel_id, actor_spec(i)) {
                    (None, _, _) => p matches InteractionPlan::Message(m) && m@
                        == "Guild commands only for now."@,
                    (Some(_), None, _) => p matches InteractionPlan::Message(m) && m@
                        == "Missing channel id."@,
                    (Some(_), Some(_), None) => p matches InteractionPlan::Message(m) && m@
                        == "Missing actor id."@,
                    (Some(g), Some(ch), Some(a)) => p matches InteractionPlan::Run {
                        command,
                        context,
                    } && command@ == c && context.guild_id == g && context.channel_id == ch
                        && context.actor_id@ == a && context.now == now,
                },
            },
        }
    }
}

pub fn interaction_plan(interaction: &Interaction, now: i64) -> (r: InteractionPlan)
    ensures
        plan_ok(r, *interaction, now),
{
    if interaction.kind == InteractionType::Ping {
        return InteractionPlan::Pong;
    }
    let data = match &interaction.data {
        None => return InteractionPlan::Message("Missing command data.".to_owned()),
        Some(d) => d,
    };
    let command = match parse_command(data) {
        Ok(c) => c,
        Err(e) => {
            let mut m = String::new();
            append(&mut m, "Command error: ");
            let t = e.message();
            append(&mut m, t.as_str());
            return InteractionPlan::Message(m);
        },
    };
    let guild_id = match &interaction.guild_id {
        None => return InteractionPlan::Message("Guild commands only for now.".to_owned()),
        Some(g) => g.clone(),
    };
    let channel_id = match &interaction.channel_id {
        None => return InteractionPlan::Message("Missing channel id.".to_owned()),
        Some(c) => c.clone(),
    };
    let actor_id = match interaction.actor_user_id() {
        None => return InteractionPlan::Message("Missing actor id.".to_owned()),
        Some(a) => a.to_owned(),
    };
    InteractionPlan::Run { command, context: CommandContext { guild_id, channel_id, actor_id, now } }
}

/// Where the answer to a deferred interaction is written.
pub fn followup_url(application_id: &str, token: &str) -> (r: String)
    ensures
        r@ == "https://discord.com/api/v10/webhooks/"@ + application_id@ + "/"@ + token@
            + "/messages/@original"@,
{
    let mut s = String::new();
    append(&mut s, "https://discord.com/api/v10/webhooks/");
    append(&mut s, application_id);
    append(&mut s, "/");
    append(&mut s, token);
    append(&mut s, "/messages/@original");
    s
}

// ---------------------------------------------------------------------------
// Riot lookups
// ---------------------------------------------------------------------------

/// How an HTTP status of a Riot lookup is read.
#[derive(Debug, Clone, Copy, PartialEq, Eq, Structural)]
pub enum LookupStatus {
    Found,
    Missing,
    Failed,
}

/// Account and spectator lookups: 200 found, 404 missing; a match lookup also reads 403 as
/// missing. Anything else failed.
pub fn lookup_status(status: u16, forbidden_is_missing: bool) -> (r: LookupStatus)
    ensures
        r == if status == 200 {
            LookupStatus::Found
        } else if status == 404 || (forbidden_is_missing && status == 403) {
            LookupStatus::Missing
        } else {
            LookupStatus::Failed
        },
{
    if status == 200 {
        LookupStatus::Found
    } else if status == 404 || (forbidden_is_missing && status == 403) {
        LookupStatus::Missing
    } else {
        LookupStatus::Failed
    }
}

/// The regional route of a match: the one of its platform prefix when that is known, else the
/// default.
pub fn match_route(riot_match_id: &str, default_route: &str) -> (r: String)
    ensures
        r@ == match parse_match_id_spec(riot_match_id@) {
            Ok((platform, _)) => match match_region_spec(platform) {
                Ok(region) => region,
                Err(_) => default_route@,
            },
            Err(_) => default_route@,
        },
{
    match parse_riot_match_id(riot_match_id) {
        Ok(p) => match match_regional_route_for_platform(p.platform.as_str()) {
            Ok(region) => region.to_owned(),
            Err(_) => default_route.to_owned(),
        },
        Err(_) => default_route.to_owned(),
    }
}

// ---------------------------------------------------------------------------
// Riot data into handler shapes
// ---------------------------------------------------------------------------

pub open spec fn minions(p: ParticipantDto) -> int {
    (match p.total_minions_killed {
        Some(v) => v as int,
        None => 0,
    }) + (match p.neutral_minions_killed {
        Some(v) => v as int,
        None => 0,
    })
}

/// A participant as the handlers take it: lane and jungle minions summed, damage to
/// champions as its damage.
pub open spec fn participant_from_dto_ok(r: ResolvedRiotParticipant, p: ParticipantDto, raw: Option<String>) -> bool {
    &&& r.puuid == p.puuid
    &&& r.team_id == p.team_id
    &&& r.champion_id == p.champion_id
    &&& r.champion_name == p.champion_name
    &&& r.win == p.win
    &&& r.kills == p.kills
    &&& r.deaths == p.deaths
    &&& r.assists == p.assists
    &&& r.total_damage == p.total_damage_dealt_to_champions
    &&& r.gold_earned == p.gold_earned
    &&& r.total_minions == Some(minions(p) as u32)
    &&& r.vision_score == p.vision_score
    &&& r.raw_json == raw
}

/// A Match-V5 match as the handlers take it, with the match and each participant serialized
/// as given.
pub fn resolved_match_from_dto(
    dto: &MatchDto,
    payload_json: Option<String>,
    raw_jsons: Vec<Option<String>>,
) -> (r: ResolvedRiotMatch)
    requires
        raw_jsons@.len() == dto.info.participants@.len(),
        forall|i: int|
            0 <= i < dto.info.participants@.len() ==> minions(#[trigger] dto.info.participants@[i])
                <= u32::MAX,
    ensures
        r.riot_match_id == dto.metadata.match_id,
        r.queue_id == dto.info.queue_id,
        r.map_id == dto.info.map_id,
        r.game_mode == dto.info.game_mode,
        r.game_type == dto.info.game_type,
        r.payload_json == payload_json,
        r.participants@.len() == dto.info.participants@.len(),
        forall|i: int|
            0 <= i < r.participants@.len() ==> participant_from_dto_ok(
                #[trigger] r.participants@[i],
                dto.info.participants@[i],
                raw_jsons@[i],
            ),
{
    let parts = &dto.info.participants;
    let mut out: Vec<ResolvedRiotParticipant> = Vec::new();
    let mut i: usize = 0;
    while i < parts.len()
        invariant
            i <= parts@.len(),
            parts@ == dto.info.participants@,
            raw_jsons@.len() == parts@.len(),
            forall|k: int| 0 <= k < parts@.len() ==> minions(#[trigger] parts@[k]) <= u32::MAX,
            out@.len() == i,
            forall|k: int|
                0 <= k < i ==> participant_from_dto_ok(
                    #[trigger] out@[k],
                    parts@[k],
                    raw_jsons@[k],
                ),
        decreases parts@.len() - i,
    {
        let p = &parts[i];
        assert(minions(parts@[i as int]) <= u32::MAX);
        let lane: u32 = match p.total_minions_killed {
            Some(v) => v,
            None => 0,
        };
        let jungle: u32 = match p.neutral_minions_killed {
            Some(v) => v,
            None => 0,
        };
        out.push(
            ResolvedRiotParticipant {
                puuid: p.puuid.clone(),
                team_id: p.team_id,
                champion_id: p.champion_id,
                champion_name: clone_opt_string(&p.champion_name),
                win: p.win,
                kills: p.kills,
                deaths: p.deaths,
                assists: p.assists,
                total_damage: p.total_damage_dealt_to_champions,
                gold_earned: p.gold_earned,
                total_minions: Some(lane + jungle),
                vision_score: p.vision_score,
                raw_json: clone_opt_string(&raw_jsons[i]),
            },
        );
        i += 1;
    }
    ResolvedRiotMatch {
        riot_match_id: dto.metadata.match_id.clone(),
        queue_id: dto.info.queue_id,
        map_id: dto.info.map_id,
        game_mode: clone_opt_string(&dto.info.game_mode),
        game_type: clone_opt_string(&dto.info.game_type),
        payload_json,
        participants: out,
    }
}

/// The participants' accounts that the spectator data names, in order.
pub open spec fn named_puuids(parts: Seq<crate::riot::match_v5::CurrentGameParticipantDto>) -> Seq<
    Seq<char>,
>
    decreases parts.len(),
{
    if parts.len() == 0 {
        seq![]
    } else {
        match parts.last().puuid {
            Some(p) => named_puuids(parts.drop_last()).push(p@),
            None => named_puuids(parts.drop_last()),
        }
    }
}

/// A live game as the poll takes it: its match id is the game's platform (or the default
/// platform, upper-cased), `_` and the game id.
pub fn live_game_from_dto(game: &CurrentGameInfoDto, platform_route: &str) -> (r: LiveGame)
    ensures
        r.riot_match_id matches Some(id) && id@ == match game.platform_id {
            Some(p) => p@,
            None => upper_seq(platform_route@),
        } + "_"@ + signed_decimal(game.game_id as int),
        r.queue_id == game.game_queue_config_id,
        r.map_id == game.map_id,
        r.game_mode == game.game_mode,
        r.game_type == game.game_type,
        crate::text::text_views(r.participant_puuids@) == named_puuids(game.participants@),
{
    let mut id = match &game.platform_id {
        Some(p) => p.clone(),
        None => to_ascii_uppercase(platform_route),
    };
    append(&mut id, "_");
    let n = i64_to_decimal(game.game_id);
    append(&mut id, n.as_str());
    let mut puuids: Vec<String> = Vec::new();
    let mut i: usize = 0;
    while i < game.participants.len()
        invariant
            i <= game.participants@.len(),
            crate::text::text_views(puuids@) == named_puuids(game.participants@.take(i as int)),
        decreases game.participants@.len() - i,
    {
        proof {
            assert(game.participants@.take(i + 1).drop_last() =~= game.participants@.take(i as int));
        }
        match &game.participants[i].puuid {
            Some(p) => {
                let ghost before = puuids@;
                puuids.push(p.clone());
                assert(crate::text::text_views(puuids@) =~= crate::text::text_views(before).push(
                    p@,
                ));
            },
            None => {},
        }
        i += 1;
    }
    assert(game.participants@.take(game.participants@.len() as int) =~= game.participants@);
    LiveGame {
        riot_match_id: Some(id),
        queue_id: game.game_queue_config_id,
        map_id: game.map_id,
        game_mode: clone_opt_string(&game.game_mode),
        game_type: clone_opt_string(&game.game_type),
        participant_puuids: puuids,
    }
}

// ---------------------------------------------------------------------------
// Randomness
// ---------------------------------------------------------------------------

/// Fills four bytes from the system's source of randomness with `getrandom::getrandom`;
/// `None` when that fails. Which bytes come is chance, so only their number is claimed.
#[verifier::external_body]
pub(crate) fn random_bytes() -> (r: Option<Vec<u8>>)
    ensures
        r matches Some(v) ==> v@.len() == 4,
{
    let mut bytes = [0u8; 4];
    match getrandom::getrandom(&mut bytes) {
        Ok(()) => Some(bytes.to_vec()),
        Err(_) => None,
    }
}

/// One xorshift step (shifts 13, 7, 17) of the fallback state.
pub open spec fn xorshift_spec(x: u64) -> u64 {
    let a = x ^ ((x << 13u64) as u64);
    let b = a ^ (a >> 7u64);
    b ^ ((b << 17u64) as u64)
}

pub fn xorshift(x: u64) -> (r: u64)
    ensures
        r == xorshift_spec(x),
{
    let a = x ^ (x << 13u64);
    let b = a ^ (a >> 7u64);
    b ^ (b << 17u64)
}

/// Random words from the system, falling back on an xorshift sequence when the system has none.
#[derive(Clone)]
pub struct WorkerRng {
    pub fallback: u64,
    /// The words handed out so far (a record for proofs, with no run-time presence).
    pub history: Ghost<Seq<u32>>,
}

/// The little-endian word of four bytes.
pub open spec fn le_word(b: Seq<u8>) -> u32 {
    (b[0] as u32) | ((b[1] as u32) << 8u32) | ((b[2] as u32) << 16u32) | ((b[3] as u32) << 24u32)
}

impl WorkerRng {
    /// Seeds the fallback, for instance with the current time in milliseconds.
    pub fn new(seed: u64) -> (r: Self)
        ensures
            r.fallback == seed,
            r.drawn() == Seq::<u32>::empty(),
    {
        WorkerRng { fallback: seed, history: Ghost(Seq::empty()) }
    }

    /// The next word given what the system's source of randomness gave: its four bytes read
    /// little-endian when it gave some, else the low half of the next xorshift state, which
    /// then replaces the fallback.
    pub fn next_from_bytes(&mut self, bytes: Option<Vec<u8>>) -> (r: u32)
        requires
            bytes matches Some(b) ==> b@.len() == 4,
        ensures
            final(self).drawn() == old(self).drawn().push(r),
            match bytes {
                Some(b) => r == le_word(b@) && final(self).fallback == old(self).fallback,
                None => final(self).fallback == xorshift_spec(old(self).fallback) && r == (
                final(self).fallback & 0xffff_ffffu64) as u32,
            },
    {
        let r = match bytes {
            Some(b) => (b[0] as u32) | ((b[1] as u32) << 8u32) | ((b[2] as u32) << 16u32) | ((
            b[3] as u32) << 24u32),
            None => {
                self.fallback = xorshift(self.fallback);
                (self.fallback & 0xffff_ffffu64) as u32
            },
        };
        self.history = Ghost(self.history@.push(r));
        r
    }
}

impl Rng for WorkerRng {
    open spec fn records_draws() -> bool {
        true
    }

    open spec fn drawn(&self) -> Seq<u32> {
        self.history@
    }

    /// A word from the system's source of randomness, or from the fallback when it fails.
    fn next_u32(&mut self) -> (r: u32)
        ensures
            final(self).fallback == old(self).fallback || (final(self).fallback == xorshift_spec(
                old(self).fallback,
            ) && r == (final(self).fallback & 0xffff_ffffu64) as u32),
    {
        self.next_from_bytes(random_bytes())
    }
}

} // verus!
