use rsso::discord::interaction::{
    ApplicationCommandData, CommandOption, Interaction, InteractionType, OptionValue, User,
};
use rsso::discord::verify::VerifyError;
use rsso::domain::shuffle::Rng;
use rsso::riot::match_v5::{
    CurrentGameInfoDto, CurrentGameParticipantDto, MatchDto, MatchInfoDto, MatchMetadataDto,
    ParticipantDto,
};
use rsso::worker::{
    followup_url, host_build_placeholder, interaction_plan, live_game_from_dto, lookup_status,
    match_route, request_refusal, resolved_match_from_dto, riot_txt_body, route, unauthorized_text,
    xorshift,
    Endpoint, HttpMethod, InteractionPlan, LookupStatus, WorkerRng,
};

fn interaction(kind: u8, data: Option<ApplicationCommandData>, guild: Option<&str>) -> Interaction {
    Interaction {
        id: "i".to_owned(),
        application_id: "app".to_owned(),
        kind: InteractionType::from_code(kind),
        token: "tok".to_owned(),
        guild_id: guild.map(str::to_owned),
        channel_id: Some("chan".to_owned()),
        member: None,
        user: Some(User {
            id: "7".to_owned(),
            username: None,
        }),
        data,
    }
}

fn command(name: &str, options: Vec<(&str, &str)>) -> ApplicationCommandData {
    ApplicationCommandData {
        name: name.to_owned(),
        options: options
            .into_iter()
            .map(|(n, v)| CommandOption {
                name: n.to_owned(),
                value: Some(OptionValue::Text(v.to_owned())),
                options: vec![],
            })
            .collect(),
        custom_id: None,
        component_type: None,
        resolved: None,
    }
}

#[test]
fn placeholder_and_routes() {
    assert_eq!(
        host_build_placeholder(),
        "rsso-worker is meant to run on wasm32-unknown-unknown"
    );
    assert_eq!(route(HttpMethod::Get, "/healthz"), Endpoint::Health);
    assert_eq!(route(HttpMethod::Head, "/riot.txt"), Endpoint::RiotTxt);
    assert_eq!(route(HttpMethod::Post, "/discord/interactions"), Endpoint::Interactions);
    assert_eq!(route(HttpMethod::Get, "/interactions"), Endpoint::NotFound);
    assert_eq!(riot_txt_body(Some("  abc \n")).as_deref(), Some("abc\n"));
    assert_eq!(riot_txt_body(Some("   ")), None);
    assert_eq!(riot_txt_body(None), None);
}

#[test]
fn plans_interactions() {
    assert!(matches!(interaction_plan(&interaction(1, None, None), 5), InteractionPlan::Pong));
    match interaction_plan(&interaction(2, None, Some("g")), 5) {
        InteractionPlan::Message(m) => assert_eq!(m, "Missing command data."),
        other => panic!("unexpected {other:?}"),
    }
    match interaction_plan(&interaction(2, Some(command("dance", vec![])), Some("g")), 5) {
        InteractionPlan::Message(m) => assert_eq!(m, "Command error: unknown command `dance`"),
        other => panic!("unexpected {other:?}"),
    }
    match interaction_plan(&interaction(2, Some(command("next", vec![])), None), 5) {
        InteractionPlan::Message(m) => assert_eq!(m, "Guild commands only for now."),
        other => panic!("unexpected {other:?}"),
    }
    match interaction_plan(&interaction(2, Some(command("end", vec![("game_id", "g_1")])), Some("g")), 5) {
        InteractionPlan::Run { context, .. } => {
            assert_eq!(context.guild_id, "g");
            assert_eq!(context.channel_id, "chan");
            assert_eq!(context.actor_id, "7");
            assert_eq!(context.now, 5);
        }
        other => panic!("unexpected {other:?}"),
    }
    assert_eq!(
        unauthorized_text(VerifyError::InvalidSignature),
        "unauthorized: discord request signature is invalid"
    );
    assert_eq!(
        followup_url("app", "tok"),
        "https://discord.com/api/v10/webhooks/app/tok/messages/@original"
    );
}

#[test]
fn reads_riot_lookups() {
    assert_eq!(lookup_status(200, false), LookupStatus::Found);
    assert_eq!(lookup_status(404, false), LookupStatus::Missing);
    assert_eq!(lookup_status(403, false), LookupStatus::Failed);
    assert_eq!(lookup_status(403, true), LookupStatus::Missing);
    assert_eq!(match_route("EUW1_123", "AMERICAS"), "EUROPE");
    assert_eq!(match_route("nonsense", "AMERICAS"), "AMERICAS");
    assert_eq!(match_route("XX9_1", "ASIA"), "ASIA");
}

#[test]
fn converts_riot_data() {
    let dto = MatchDto {
        metadata: MatchMetadataDto {
            match_id: "NA1_1".to_owned(),
            participants: vec!["a".to_owned()],
        },
        info: MatchInfoDto {
            game_creation: None,
            game_start_timestamp: None,
            game_end_timestamp: None,
            queue_id: Some(450),
            map_id: Some(12),
            game_mode: Some("ARAM".to_owned()),
            game_type: None,
            participants: vec![ParticipantDto {
                puuid: "a".to_owned(),
                summoner_id: None,
                riot_id_game_name: None,
                riot_id_tagline: None,
                team_id: Some(100),
                champion_id: Some(1),
                champion_name: Some("Annie".to_owned()),
                win: Some(true),
                kills: Some(1),
                deaths: Some(2),
                assists: Some(3),
                total_damage_dealt_to_champions: Some(1000),
                gold_earned: Some(500),
                total_minions_killed: Some(30),
                neutral_minions_killed: None,
                vision_score: Some(9),
            }],
        },
    };
    let m = resolved_match_from_dto(&dto, Some("{}".to_owned()), vec![Some("{\"p\":1}".to_owned())]);
    assert_eq!(m.riot_match_id, "NA1_1");
    assert_eq!(m.participants[0].total_minions, Some(30));
    assert_eq!(m.participants[0].total_damage, Some(1000));
    assert_eq!(m.participants[0].raw_json.as_deref(), Some("{\"p\":1}"));
    let game = CurrentGameInfoDto {
        game_id: 4901234567,
        game_type: None,
        game_start_time: None,
        map_id: Some(12),
        game_length: None,
        platform_id: None,
        game_mode: Some("ARAM".to_owned()),
        game_queue_config_id: Some(450),
        participants: vec![
            CurrentGameParticipantDto {
                puuid: Some("a".to_owned()),
                team_id: None,
                champion_id: None,
                summoner_name: None,
            },
            CurrentGameParticipantDto {
                puuid: None,
                team_id: None,
                champion_id: None,
                summoner_name: None,
            },
        ],
    };
    let live = live_game_from_dto(&game, "na1");
    assert_eq!(live.riot_match_id.as_deref(), Some("NA1_4901234567"));
    assert_eq!(live.participant_puuids, vec!["a".to_owned()]);
    assert_eq!(live.queue_id, Some(450));
}

#[test]
fn random_words_and_fallback() {
    assert_eq!(xorshift(1), 1082269761);
    let mut rng = WorkerRng::new(1);
    let _ = rng.next_u32();
    assert!(rng.fallback == 1 || rng.fallback == xorshift(1));
}

#[test]
fn system_bytes_read_little_endian() {
    let mut rng = WorkerRng::new(1);
    assert_eq!(rng.next_from_bytes(Some(vec![1, 2, 3, 4])), 0x0403_0201);
    assert_eq!(rng.fallback, 1);
}

#[test]
fn missing_system_bytes_advance_the_fallback() {
    let mut rng = WorkerRng::new(1);
    let word = rng.next_from_bytes(None);
    assert_eq!(rng.fallback, 1082269761);
    assert_eq!(word, (1082269761u64 & 0xffff_ffff) as u32);
}

#[test]
fn refused_requests_get_401() {
    assert!(request_refusal(Ok(())).is_none());
    let (status, text) = request_refusal(Err(VerifyError::MissingSignature)).expect("refused");
    assert_eq!(status, 401);
    assert_eq!(text, "unauthorized: discord request signature is missing");
}
