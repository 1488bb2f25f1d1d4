//! The slash commands this bot declares to Discord.
use vstd::prelude::*;

verus! {

/// One choice of a string option: the label shown and the value sent.
#[derive(Debug, Clone)]
pub struct OptionChoice {
    pub name: String,
    pub value: String,
}

/// One option of a slash command; `kind` is Discord's option type (3 string, 6 user).
#[derive(Debug, Clone)]
pub struct OptionDefinition {
    pub name: String,
    pub description: String,
    pub kind: u8,
    pub required: bool,
    pub choices: Vec<OptionChoice>,
}

/// One slash command with its options.
#[derive(Debug, Clone)]
pub struct CommandDefinition {
    pub name: String,
    pub description: String,
    pub options: Vec<OptionDefinition>,
}

pub type ChoiceModel = (Seq<char>, Seq<char>);

pub type OptionModelDef = (Seq<char>, Seq<char>, u8, bool, Seq<ChoiceModel>);

pub type CommandModelDef = (Seq<char>, Seq<char>, Seq<OptionModelDef>);

pub open spec fn choice_view(c: OptionChoice) -> ChoiceModel {
    (c.name@, c.value@)
}

pub open spec fn option_view(o: OptionDefinition) -> OptionModelDef {
    (o.name@, o.description@, o.kind, o.required, o.choices@.map_values(|c: OptionChoice| choice_view(c)))
}

pub open spec fn command_view(c: CommandDefinition) -> CommandModelDef {
    (c.name@, c.description@, c.options@.map_values(|o: OptionDefinition| option_view(o)))
}

pub open spec fn manifest_view(m: Seq<CommandDefinition>) -> Seq<CommandModelDef> {
    m.map_values(|c: CommandDefinition| command_view(c))
}

pub open spec fn option_spec(
    name: Seq<char>,
    description: Seq<char>,
    kind: u8,
    required: bool,
    choices: Seq<ChoiceModel>,
) -> OptionModelDef {
    (name, description, kind, required, choices)
}

pub open spec fn command_spec(
    name: Seq<char>,
    description: Seq<char>,
    options: Seq<OptionModelDef>,
) -> CommandModelDef {
    (name, description, options)
}

/// The four modes, by label and value.
pub open spec fn mode_choices_spec() -> Seq<ChoiceModel> {
    seq![("Rift"@, "rift"@), ("ARAM"@, "aram"@), ("ARAM: Mayhem"@, "aram_mayhem"@), ("Other"@, "other"@)]
}

/// The two sides, by label and value.
pub open spec fn side_choices_spec() -> Seq<ChoiceModel> {
    seq![("Blue"@, "blue"@), ("Red"@, "red"@)]
}

pub open spec fn manifest_spec() -> Seq<CommandModelDef> {
    seq![
        command_spec(
            "register-summoners"@,
            "Register your Riot ID as a trusted in-house claim"@,
            seq![
                option_spec("riot_id"@, "Riot ID, for example GameName#TAG"@, 3, true, seq![]),
            ],
        ),
        command_spec(
            "create"@,
            "Create an in-house game and randomize even teams"@,
            seq![
                option_spec("users"@, "Discord mentions of the players"@, 3, true, seq![]),
                option_spec("mode"@, "Game mode"@, 3, false, mode_choices_spec()),
            ],
        ),
        command_spec(
            "add"@,
            "Add players to a game"@,
            seq![
                option_spec("user_1"@, "Player 1"@, 6, true, seq![]),
                option_spec("user_2"@, "Player 2"@, 6, false, seq![]),
                option_spec("user_3"@, "Player 3"@, 6, false, seq![]),
                option_spec("user_4"@, "Player 4"@, 6, false, seq![]),
                option_spec("user_5"@, "Player 5"@, 6, false, seq![]),
                option_spec("user_6"@, "Player 6"@, 6, false, seq![]),
                option_spec("user_7"@, "Player 7"@, 6, false, seq![]),
                option_spec("user_8"@, "Player 8"@, 6, false, seq![]),
                option_spec("user_9"@, "Player 9"@, 6, false, seq![]),
                option_spec("user_10"@, "Player 10"@, 6, false, seq![]),
                option_spec("game_id"@, "Local game id"@, 3, false, seq![]),
            ],
        ),
        command_spec("next"@, "Start the next balanced rotation of the latest game"@, seq![]),
        command_spec(
            "winner"@,
            "Mark the winning side and finalize a game"@,
            seq![
                option_spec("game_id"@, "Local game id"@, 3, true, seq![]),
                option_spec("side"@, "Winning side"@, 3, true, side_choices_spec()),
            ],
        ),
        command_spec(
            "stats"@,
            "Show in-house stats"@,
            seq![
                option_spec("user"@, "Discord user"@, 6, false, seq![]),
                option_spec("name"@, "Registered Riot game name"@, 3, false, seq![]),
                option_spec("mode"@, "Mode filter"@, 3, false, mode_choices_spec()),
            ],
        ),
        command_spec(
            "leaderboard"@,
            "Show in-house leaderboard"@,
            seq![
                option_spec("mode"@, "Mode filter"@, 3, false, mode_choices_spec()),
            ],
        ),
    ]
}

fn choice(name: &str, value: &str) -> (r: OptionChoice)
    ensures
        choice_view(r) == (name@, value@),
{
    OptionChoice { name: name.to_owned(), value: value.to_owned() }
}

/// The choices of a mode option.
pub fn mode_choices() -> (r: Vec<OptionChoice>)
    ensures
        r@.map_values(|c: OptionChoice| choice_view(c)) == mode_choices_spec(),
{
    let mut v: Vec<OptionChoice> = Vec::new();
    v.push(choice("Rift", "rift"));
    v.push(choice("ARAM", "aram"));
    v.push(choice("ARAM: Mayhem", "aram_mayhem"));
    v.push(choice("Other", "other"));
    assert(v@.map_values(|c: OptionChoice| choice_view(c)) =~= mode_choices_spec());
    v
}

fn side_choices() -> (r: Vec<OptionChoice>)
    ensures
        r@.map_values(|c: OptionChoice| choice_view(c)) == side_choices_spec(),
{
    let mut v: Vec<OptionChoice> = Vec::new();
    v.push(choice("Blue", "blue"));
    v.push(choice("Red", "red"));
    assert(v@.map_values(|c: OptionChoice| choice_view(c)) =~= side_choices_spec());
    v
}

fn option(name: &str, description: &str, kind: u8, required: bool, choices: Vec<OptionChoice>) -> (r:
    OptionDefinition)
    ensures
        option_view(r) == option_spec(
            name@,
            description@,
            kind,
            required,
            choices@.map_values(|c: OptionChoice| choice_view(c)),
        ),
{
    OptionDefinition {
        name: name.to_owned(),
        description: description.to_owned(),
        kind,
        required,
        choices,
    }
}

fn command(name: &str, description: &str, options: Vec<OptionDefinition>) -> (r: CommandDefinition)
    ensures
        command_view(r) == command_spec(
            name@,
            description@,
            options@.map_values(|o: OptionDefinition| option_view(o)),
        ),
{
    CommandDefinition { name: name.to_owned(), description: description.to_owned(), options }
}

/// The slash commands registered with Discord, in order: the seven of the active workflow.
#[verifier::rlimit(50)]
pub fn command_manifest() -> (r: Vec<CommandDefinition>)
    ensures
        manifest_view(r@) == manifest_spec(),
{
    let mut out: Vec<CommandDefinition> = Vec::new();
    let mut o0: Vec<OptionDefinition> = Vec::new();
    o0.push(option("riot_id", "Riot ID, for example GameName#TAG", 3, true, Vec::new()));
    assert(o0@.map_values(|o: OptionDefinition| option_view(o)) =~~= seq![
        option_spec("riot_id"@, "Riot ID, for example GameName#TAG"@, 3, true, seq![]),
    ]);
    out.push(command("register-summoners", "Register your Riot ID as a trusted in-house claim", o0));
    let mut o1: Vec<OptionDefinition> = Vec::new();
    o1.push(option("users", "Discord mentions of the players", 3, true, Vec::new()));
    o1.push(option("mode", "Game mode", 3, false, mode_choices()));
    assert(o1@.map_values(|o: OptionDefinition| option_view(o)) =~~= seq![
        option_spec("users"@, "Discord mentions of the players"@, 3, true, seq![]),
        option_spec("mode"@, "Game mode"@, 3, false, mode_choices_spec()),
    ]);
    out.push(command("create", "Create an in-house game and randomize even teams", o1));
    let mut o2: Vec<OptionDefinition> = Vec::new();
    o2.push(option("user_1", "Player 1", 6, true, Vec::new()));
    o2.push(option("user_2", "Player 2", 6, false, Vec::new()));
    o2.push(option("user_3", "Player 3", 6, false, Vec::new()));
    o2.push(option("user_4", "Player 4", 6, false, Vec::new()));
    o2.push(option("user_5", "Player 5", 6, false, Vec::new()));
    o2.push(option("user_6", "Player 6", 6, false, Vec::new()));
    o2.push(option("user_7", "Player 7", 6, false, Vec::new()));
    o2.push(option("user_8", "Player 8", 6, false, Vec::new()));
    o2.push(option("user_9", "Player 9", 6, false, Vec::new()));
    o2.push(option("user_10", "Player 10", 6, false, Vec::new()));
    o2.push(option("game_id", "Local game id", 3, false, Vec::new()));
    assert(o2@.map_values(|o: OptionDefinition| option_view(o)) =~~= seq![
        option_spec("user_1"@, "Player 1"@, 6, true, seq![]),
        option_spec("user_2"@, "Player 2"@, 6, false, seq![]),
        option_spec("user_3"@, "Player 3"@, 6, false, seq![]),
        option_spec("user_4"@, "Player 4"@, 6, false, seq![]),
        option_spec("user_5"@, "Player 5"@, 6, false, seq![]),
        option_spec("user_6"@, "Player 6"@, 6, false, seq![]),
        option_spec("user_7"@, "Player 7"@, 6, false, seq![]),
        option_spec("user_8"@, "Player 8"@, 6, false, seq![]),
        option_spec("user_9"@, "Player 9"@, 6, false, seq![]),
        option_spec("user_10"@, "Player 10"@, 6, false, seq![]),
        option_spec("game_id"@, "Local game id"@, 3, false, seq![]),
    ]);
    out.push(command("add", "Add players to a game", o2));
    let o3: Vec<OptionDefinition> = Vec::new();
    assert(o3@.map_values(|o: OptionDefinition| option_view(o)) =~~= seq![]);
    out.push(command("next", "Start the next balanced rotation of the latest game", o3));
    let mut o4: Vec<OptionDefinition> = Vec::new();
    o4.push(option("game_id", "Local game id", 3, true, Vec::new()));
    o4.push(option("side", "Winning side", 3, true, side_choices()));
    assert(o4@.map_values(|o: OptionDefinition| option_view(o)) =~~= seq![
        option_spec("game_id"@, "Local game id"@, 3, true, seq![]),
        option_spec("side"@, "Winning side"@, 3, true, side_choices_spec()),
    ]);
    out.push(command("winner", "Mark the winning side and finalize a game", o4));
    let mut o5: Vec<OptionDefinition> = Vec::new();
    o5.push(option("user", "Discord user", 6, false, Vec::new()));
    o5.push(option("name", "Registered Riot game name", 3, false, Vec::new()));
    o5.push(option("mode", "Mode filter", 3, false, mode_choices()));
    assert(o5@.map_values(|o: OptionDefinition| option_view(o)) =~~= seq![
        option_spec("user"@, "Discord user"@, 6, false, seq![]),
        option_spec("name"@, "Registered Riot game name"@, 3, false, seq![]),
        option_spec("mode"@, "Mode filter"@, 3, false, mode_choices_spec()),
    ]);
    out.push(command("stats", "Show in-house stats", o5));
    let mut o6: Vec<OptionDefinition> = Vec::new();
    o6.push(option("mode", "Mode filter", 3, false, mode_choices()));
    assert(o6@.map_values(|o: OptionDefinition| option_view(o)) =~~= seq![
        option_spec("mode"@, "Mode filter"@, 3, false, mode_choices_spec()),
    ]);
    out.push(command("leaderboard", "Show in-house leaderboard", o6));
    assert(manifest_view(out@) =~~= manifest_spec());
    out
}

} // verus!
