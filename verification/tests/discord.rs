use rsso::discord::response::deferred_update_response;
use ed25519_dalek::{Signer, SigningKey};
use rsso::discord::command::{mentioned_users, parse_command, CommandError, DiscordCommand};
use rsso::discord::interaction::{
    ApplicationCommandData, CommandOption, Interaction, InteractionType, Member, OptionValue, User,
};
use rsso::discord::manifest::{command_manifest, mode_choices};
use rsso::discord::response::{deferred_response, message_response, pong_response};
use rsso::discord::verify::{verify_discord_request, VerifyError};
use rsso::domain::modes::GameModeKind;
use rsso::domain::state::TeamSide;

fn text(name: &str, value: &str) -> CommandOption {
    CommandOption {
        name: name.to_owned(),
        value: Some(OptionValue::Text(value.to_owned())),
        options: vec![],
    }
}

fn data(name: &str, options: Vec<CommandOption>) -> ApplicationCommandData {
    ApplicationCommandData {
        name: name.to_owned(),
        options,
        custom_id: None,
        component_type: None,
        resolved: None,
    }
}

#[test]
fn parses_game_users() {
    let data = data(
        "game",
        vec![text("mode", "aram"), text("user_1", "1"), text("user_2", "2")],
    );
    let parsed = parse_command(&data).expect("valid game command");
    let DiscordCommand::Game(command) = parsed else {
        panic!("expected game");
    };
    assert_eq!(command.mode, GameModeKind::Aram);
    assert_eq!(command.users.len(), 2);
}

#[test]
fn parses_create_users() {
    let data = data(
        "create",
        vec![
            text("user_1", "1"),
            text("user_2", "2"),
            text("user_3", "3"),
            text("user_4", "4"),
        ],
    );
    let parsed = parse_command(&data).expect("valid create command");
    let DiscordCommand::Create(command) = parsed else {
        panic!("expected create");
    };
    assert_eq!(command.mode, GameModeKind::AramMayhem);
    assert_eq!(command.users.len(), 4);
}

#[test]
fn parses_winner() {
    let data = data("winner", vec![text("game_id", "1283"), text("winner", "red")]);
    let parsed = parse_command(&data).expect("valid winner command");
    let DiscordCommand::Winner(command) = parsed else {
        panic!("expected winner");
    };
    assert_eq!(command.game_id.as_str(), "1283");
    assert_eq!(command.winner, TeamSide::Red);
}

#[test]
fn parses_finish_optional_winner() {
    let data = data(
        "finish",
        vec![text("riot_match_id", "NA1_4901234567"), text("winner", "blue")],
    );
    let parsed = parse_command(&data).expect("valid finish command");
    let DiscordCommand::Finish(command) = parsed else {
        panic!("expected finish");
    };
    assert_eq!(command.winner, Some(TeamSide::Blue));
}

#[test]
fn parses_multi_add_without_game_id() {
    let data = data("add", vec![text("user_1", "1"), text("user_2", "2")]);
    let parsed = parse_command(&data).expect("valid add command");
    let DiscordCommand::Add(command) = parsed else {
        panic!("expected add");
    };
    assert_eq!(command.game_id, None);
    assert_eq!(command.users.len(), 2);
}

#[test]
fn parses_stats_name() {
    let data = data("stats", vec![text("name", "Cyracen")]);
    let parsed = parse_command(&data).expect("valid stats command");
    let DiscordCommand::Stats(command) = parsed else {
        panic!("expected stats");
    };
    assert_eq!(command.name, Some("Cyracen".to_owned()));
    assert_eq!(command.user, None);
}

#[test]
fn parses_finish_numeric_game_id_with_region() {
    let data = data(
        "finish",
        vec![text("riot_match_id", "5561312307"), text("region", "NA")],
    );
    let parsed = parse_command(&data).expect("valid finish command");
    let DiscordCommand::Finish(command) = parsed else {
        panic!("expected finish");
    };
    assert_eq!(command.riot_match_id, "NA1_5561312307");
}

#[test]
fn parses_results_with_optional_match_id() {
    let data = data(
        "results",
        vec![text("game_id", "g_123"), text("riot_match_id", "NA1_4901234567")],
    );
    let parsed = parse_command(&data).expect("valid results command");
    let DiscordCommand::Results(command) = parsed else {
        panic!("expected results");
    };
    assert_eq!(
        command.game_id.map(|id| id.into_inner()),
        Some("g_123".to_owned())
    );
    assert_eq!(command.winner, None);
    assert_eq!(command.riot_match_id, Some("NA1_4901234567".to_owned()));
}

#[test]
fn parses_hydrate_numeric_match_id() {
    let data = data("hydrate", vec![text("riot_match_id", "5561726994")]);
    let parsed = parse_command(&data).expect("valid hydrate command");
    let DiscordCommand::Hydrate(command) = parsed else {
        panic!("expected hydrate");
    };
    assert_eq!(command.riot_match_id, Some("NA1_5561726994".to_owned()));
}

#[test]
fn parses_link_match_numeric_match_id() {
    let data = data(
        "link-match",
        vec![text("riot_match_id", "5561727000"), text("game_id", "g_session")],
    );
    let parsed = parse_command(&data).expect("valid link-match command");
    let DiscordCommand::LinkMatch(command) = parsed else {
        panic!("expected link-match");
    };
    assert_eq!(
        command.game_id.map(|id| id.into_inner()),
        Some("g_session".to_owned())
    );
    assert_eq!(command.riot_match_id, "NA1_5561727000");
}

#[test]
fn refuses_bad_commands() {
    let unknown = parse_command(&data("dance", vec![])).unwrap_err();
    assert_eq!(unknown.message(), "unknown command `dance`");
    let odd = parse_command(&data(
        "create",
        vec![text("user_1", "1"), text("user_2", "2"), text("user_3", "3")],
    ))
    .unwrap_err();
    assert!(matches!(odd, CommandError::InvalidCreateRoster));
    let missing = parse_command(&data("winner", vec![text("game_id", "g_1")])).unwrap_err();
    assert!(matches!(missing, CommandError::MissingOption(ref n) if n == "side"));
    let both = parse_command(&data(
        "stats",
        vec![
            CommandOption {
                name: "user".to_owned(),
                value: Some(OptionValue::Text("7".to_owned())),
                options: vec![],
            },
            text("name", "Vu"),
        ],
    ))
    .unwrap_err();
    assert!(matches!(both, CommandError::InvalidOption { .. }));
}

#[test]
fn next_and_leaderboard_need_no_options() {
    assert!(matches!(
        parse_command(&data("next", vec![])).expect("next"),
        DiscordCommand::Next
    ));
    let DiscordCommand::Leaderboards { mode } =
        parse_command(&data("leaderboard", vec![text("mode", "aram")])).expect("leaderboard")
    else {
        panic!("expected leaderboards");
    };
    assert_eq!(mode, Some(GameModeKind::Aram));
}

fn signed_request(body: &[u8], timestamp: &str) -> (String, String) {
    let key = SigningKey::from_bytes(&[7u8; 32]);
    let mut message = timestamp.as_bytes().to_vec();
    message.extend_from_slice(body);
    let signature = key.sign(&message);
    (
        hex::encode(key.verifying_key().to_bytes()),
        hex::encode(signature.to_bytes()),
    )
}

#[test]
fn accepts_a_signed_request() {
    let body = br#"{"type":1}"#;
    let (public_key, signature) = signed_request(body, "1700000000");
    assert!(verify_discord_request(&public_key, Some(&signature), Some("1700000000"), body).is_ok());
    let upper = signature.to_uppercase();
    assert!(verify_discord_request(&public_key, Some(&upper), Some("1700000000"), body).is_ok());
}

#[test]
fn refuses_tampered_or_unsigned_requests() {
    let body = br#"{"type":1}"#;
    let (public_key, signature) = signed_request(body, "1700000000");
    assert_eq!(
        verify_discord_request(&public_key, Some(&signature), Some("1700000001"), body),
        Err(VerifyError::InvalidSignature)
    );
    assert_eq!(
        verify_discord_request(&public_key, None, Some("1700000000"), body),
        Err(VerifyError::MissingSignature)
    );
    assert_eq!(
        verify_discord_request(&public_key, Some(&signature), None, body),
        Err(VerifyError::MissingSignature)
    );
    assert_eq!(
        verify_discord_request("abc", Some(&signature), Some("1700000000"), body),
        Err(VerifyError::InvalidPublicKey)
    );
    assert_eq!(
        verify_discord_request(&public_key, Some("00ff"), Some("1700000000"), body),
        Err(VerifyError::InvalidSignature)
    );
    assert_eq!(
        VerifyError::MissingSignature.message(),
        "discord request signature is missing"
    );
}

#[test]
fn manifest_lists_the_commands_in_order() {
    let manifest = command_manifest();
    let names: Vec<&str> = manifest.iter().map(|c| c.name.as_str()).collect();
    assert_eq!(
        names,
        vec![
            "register-summoners",
            "create",
            "add",
            "next",
            "winner",
            "stats",
            "leaderboard"
        ]
    );
    let create = &manifest[1];
    assert_eq!(create.options.len(), 2);
    assert_eq!(create.options[0].name, "users");
    assert!(create.options[0].required && !create.options[1].required);
    assert_eq!(create.options[1].name, "mode");
    assert_eq!(create.options[1].choices.len(), 4);
    assert!(manifest[3].options.is_empty());
    assert_eq!(manifest[4].options[1].name, "side");
    assert_eq!(manifest[4].options[1].choices[1].value, "red");
    assert_eq!(mode_choices()[2].value, "aram_mayhem");
}

#[test]
fn every_declared_command_parses() {
    for command in command_manifest() {
        let options = command
            .options
            .iter()
            .filter(|o| o.required)
            .map(|o| {
                let value = match (o.name.as_str(), o.choices.first()) {
                    (_, Some(choice)) => choice.value.clone(),
                    ("riot_id", None) => "Faker#KR1".to_owned(),
                    ("users", None) => "<@1> <@2>".to_owned(),
                    (_, None) => format!("{}", o.name.len()),
                };
                text(&o.name, &value)
            })
            .collect();
        let parsed = parse_command(&data(&command.name, options));
        assert!(parsed.is_ok(), "{} does not parse: {:?}", command.name, parsed.err());
    }
}

#[test]
fn response_shapes() {
    assert_eq!(pong_response().kind, 1);
    let deferred = deferred_response(true);
    assert_eq!(deferred.kind, 5);
    assert_eq!(deferred.data.expect("data").flags, Some(64));
    let message = message_response("hi".to_owned(), false);
    assert_eq!(message.kind, 4);
    let d = message.data.expect("data");
    assert_eq!(d.content.as_deref(), Some("hi"));
    assert_eq!(d.flags, None);
}

#[test]
fn actor_prefers_the_guild_member() {
    let interaction = Interaction {
        id: "i".to_owned(),
        application_id: "app".to_owned(),
        kind: InteractionType::from_code(2),
        token: "t".to_owned(),
        guild_id: Some("g".to_owned()),
        channel_id: Some("c".to_owned()),
        member: Some(Member {
            user: User {
                id: "member".to_owned(),
                username: None,
            },
            permissions: None,
        }),
        user: Some(User {
            id: "direct".to_owned(),
            username: None,
        }),
        data: None,
    };
    assert_eq!(interaction.actor_user_id(), Some("member"));
    assert_eq!(InteractionType::from_code(1), InteractionType::Ping);
}

#[test]
fn deferred_update_has_no_data() {
    let r = deferred_update_response();
    assert_eq!(r.kind, 6);
    assert!(r.data.is_none());
}

#[test]
fn parses_create_mentions_text() {
    let parsed = parse_command(&data(
        "create",
        vec![text("users", "<@1> <@!2>, <@3> hello <@4"), text("user_1", "5")],
    ))
    .expect("valid create command");
    let DiscordCommand::Create(command) = parsed else {
        panic!("expected create");
    };
    let ids: Vec<&str> = command.users.iter().map(|u| u.as_str()).collect();
    assert_eq!(ids, vec!["1", "2", "3", "5"]);
    assert_eq!(command.mode, GameModeKind::AramMayhem);
    let odd = parse_command(&data("create", vec![text("users", "<@1> <@2> <@3>")])).unwrap_err();
    assert!(matches!(odd, CommandError::InvalidCreateRoster));
    let ids: Vec<String> = mentioned_users("<@@7><@8>x<@>")
        .into_iter()
        .map(|u| u.as_str().to_owned())
        .collect();
    assert_eq!(ids, vec!["8".to_owned()]);
}

#[test]
fn parses_winner_side() {
    let parsed = parse_command(&data(
        "winner",
        vec![text("game_id", "g_1"), text("side", "blue"), text("winner", "red")],
    ))
    .expect("valid winner command");
    let DiscordCommand::Winner(command) = parsed else {
        panic!("expected winner");
    };
    assert_eq!(command.winner, TeamSide::Blue);
}
