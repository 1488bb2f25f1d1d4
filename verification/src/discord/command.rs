//! Slash-command parsing.
use crate::discord::interaction::{ApplicationCommandData, CommandOption, OptionValue};
use crate::domain::ids::{DiscordUserId, GameId};
use crate::domain::match_id::{fault_message, normalize_match_id_spec, normalize_riot_match_id, MatchIdError, MatchIdFault};
use crate::domain::modes::{mode_from_name, GameModeKind};
use crate::domain::state::{team_side_from_name, TeamSide};
use crate::text::{
    append, char_is_digit, chars_of, is_ascii_digit, lemma_position_of_scan, position_of,
    starts_with, str_eq, str_starts_with, string_from_range, trim, trim_seq,
};
use vstd::prelude::*;

verus! {

#[derive(Debug)]
pub enum DiscordCommand {
    RegisterSummoners { riot_id: String },
    Create(CreateCommand),
    Game(GameCommand),
    Add(AddCommand),
    Next,
    Randomize { game_id: GameId },
    Winner(WinnerCommand),
    Result { game_id: GameId, winner: TeamSide },
    Results(ResultsCommand),
    Finish(FinishCommand),
    Hydrate(HydrateCommand),
    LinkMatch(LinkMatchCommand),
    End { game_id: GameId },
    Status { game_id: Option<GameId> },
    Stats(StatsCommand),
    Leaderboards { mode: Option<GameModeKind> },
    Analysis { mode: Option<GameModeKind> },
}

#[derive(Debug)]
pub struct CreateCommand {
    pub mode: GameModeKind,
    pub users: Vec<DiscordUserId>,
}

#[derive(Debug)]
pub struct GameCommand {
    pub mode: GameModeKind,
    pub users: Vec<DiscordUserId>,
}

#[derive(Debug)]
pub struct AddCommand {
    pub game_id: Option<GameId>,
    pub users: Vec<DiscordUserId>,
}

#[derive(Debug)]
pub struct WinnerCommand {
    pub game_id: GameId,
    pub winner: TeamSide,
}

#[derive(Debug)]
pub struct FinishCommand {
    pub riot_match_id: String,
    pub game_id: Option<GameId>,
    pub winner: Option<TeamSide>,
}

#[derive(Debug)]
pub struct ResultsCommand {
    pub game_id: Option<GameId>,
    pub winner: Option<TeamSide>,
    pub riot_match_id: Option<String>,
}

#[derive(Debug)]
pub struct HydrateCommand {
    pub game_id: Option<GameId>,
    pub riot_match_id: Option<String>,
}

#[derive(Debug)]
pub struct LinkMatchCommand {
    pub game_id: Option<GameId>,
    pub riot_match_id: String,
}

#[derive(Debug)]
pub struct StatsCommand {
    pub user: Option<DiscordUserId>,
    pub name: Option<String>,
    pub mode: Option<GameModeKind>,
}

#[derive(Debug)]
pub enum CommandError {
    MissingData,
    UnknownCommand(String),
    MissingOption(String),
    ExpectedString(String),
    ExpectedUser(String),
    InvalidOption { name: String, reason: String },
    InvalidCreateRoster,
    InvalidGameRoster,
    InvalidAddRoster,
}

// ---------------------------------------------------------------------------
// Views
// ---------------------------------------------------------------------------

/// A command with its texts taken by their characters.
pub enum CommandModel {
    RegisterSummoners(Seq<char>),
    Create(GameModeKind, Seq<Seq<char>>),
    Game(GameModeKind, Seq<Seq<char>>),
    Add(Option<Seq<char>>, Seq<Seq<char>>),
    Next,
    Randomize(Seq<char>),
    Winner(Seq<char>, TeamSide),
    Result(Seq<char>, TeamSide),
    /// game id, winner, Riot match id
    Results(Option<Seq<char>>, Option<TeamSide>, Option<Seq<char>>),
    /// Riot match id, game id, winner
    Finish(Seq<char>, Option<Seq<char>>, Option<TeamSide>),
    /// game id, Riot match id
    Hydrate(Option<Seq<char>>, Option<Seq<char>>),
    /// game id, Riot match id
    LinkMatch(Option<Seq<char>>, Seq<char>),
    End(Seq<char>),
    Status(Option<Seq<char>>),
    /// user, name, mode
    Stats(Option<Seq<char>>, Option<Seq<char>>, Option<GameModeKind>),
    Leaderboards(Option<GameModeKind>),
    Analysis(Option<GameModeKind>),
}

/// A command error with its texts taken by their characters.
pub enum CommandFault {
    MissingData,
    UnknownCommand(Seq<char>),
    MissingOption(Seq<char>),
    ExpectedString(Seq<char>),
    ExpectedUser(Seq<char>),
    InvalidOption { name: Seq<char>, reason: Seq<char> },
    InvalidCreateRoster,
    InvalidGameRoster,
    InvalidAddRoster,
}

pub open spec fn user_views(users: Seq<DiscordUserId>) -> Seq<Seq<char>> {
    users.map_values(|u: DiscordUserId| u@)
}

pub open spec fn opt_id_view(id: Option<GameId>) -> Option<Seq<char>> {
    match id {
        Some(g) => Some(g@),
        None => None,
    }
}

pub open spec fn opt_user_view(id: Option<DiscordUserId>) -> Option<Seq<char>> {
    match id {
        Some(u) => Some(u@),
        None => None,
    }
}

pub open spec fn opt_text_view(t: Option<String>) -> Option<Seq<char>> {
    match t {
        Some(s) => Some(s@),
        None => None,
    }
}

impl View for DiscordCommand {
    type V = CommandModel;

    open spec fn view(&self) -> CommandModel {
        match self {
            DiscordCommand::RegisterSummoners { riot_id } => CommandModel::RegisterSummoners(
                riot_id@,
            ),
            DiscordCommand::Create(c) => CommandModel::Create(c.mode, user_views(c.users@)),
            DiscordCommand::Game(c) => CommandModel::Game(c.mode, user_views(c.users@)),
            DiscordCommand::Add(c) => CommandModel::Add(opt_id_view(c.game_id), user_views(c.users@)),
            DiscordCommand::Next => CommandModel::Next,
            DiscordCommand::Randomize { game_id } => CommandModel::Randomize(game_id@),
            DiscordCommand::Winner(c) => CommandModel::Winner(c.game_id@, c.winner),
            DiscordCommand::Result { game_id, winner } => CommandModel::Result(game_id@, *winner),
            DiscordCommand::Results(c) => CommandModel::Results(
                opt_id_view(c.game_id),
                c.winner,
                opt_text_view(c.riot_match_id),
            ),
            DiscordCommand::Finish(c) => CommandModel::Finish(
                c.riot_match_id@,
                opt_id_view(c.game_id),
                c.winner,
            ),
            DiscordCommand::Hydrate(c) => CommandModel::Hydrate(
                opt_id_view(c.game_id),
                opt_text_view(c.riot_match_id),
            ),
            DiscordCommand::LinkMatch(c) => CommandModel::LinkMatch(
                opt_id_view(c.game_id),
                c.riot_match_id@,
            ),
            DiscordCommand::End { game_id } => CommandModel::End(game_id@),
            DiscordCommand::Status { game_id } => CommandModel::Status(opt_id_view(*game_id)),
            DiscordCommand::Stats(c) => CommandModel::Stats(
                opt_user_view(c.user),
                opt_text_view(c.name),
                c.mode,
            ),
            DiscordCommand::Leaderboards { mode } => CommandModel::Leaderboards(*mode),
            DiscordCommand::Analysis { mode } => CommandModel::Analysis(*mode),
        }
    }
}

impl View for CommandError {
    type V = CommandFault;

    open spec fn view(&self) -> CommandFault {
        match self {
            CommandError::MissingData => CommandFault::MissingData,
            CommandError::UnknownCommand(c) => CommandFault::UnknownCommand(c@),
            CommandError::MissingOption(n) => CommandFault::MissingOption(n@),
            CommandError::ExpectedString(n) => CommandFault::ExpectedString(n@),
            CommandError::ExpectedUser(n) => CommandFault::ExpectedUser(n@),
            CommandError::InvalidOption { name, reason } => CommandFault::InvalidOption {
                name: name@,
                reason: reason@,
            },
            CommandError::InvalidCreateRoster => CommandFault::InvalidCreateRoster,
            CommandError::InvalidGameRoster => CommandFault::InvalidGameRoster,
            CommandError::InvalidAddRoster => CommandFault::InvalidAddRoster,
        }
    }
}

pub open spec fn command_fault_message(f: CommandFault) -> Seq<char> {
    match f {
        CommandFault::MissingData => "missing command data"@,
        CommandFault::UnknownCommand(c) => "unknown command `"@ + c + "`"@,
        CommandFault::MissingOption(n) => "missing option `"@ + n + "`"@,
        CommandFault::ExpectedString(n) => "option `"@ + n + "` must be a string"@,
        CommandFault::ExpectedUser(n) => "option `"@ + n + "` must be a Discord user"@,
        CommandFault::InvalidOption { name, reason } => "invalid option `"@ + name + "`: "@
            + reason,
        CommandFault::InvalidCreateRoster => "`/create` needs an even roster between 2 and 10 users"@,
        CommandFault::InvalidGameRoster => "`/game` needs between 2 and 10 users"@,
        CommandFault::InvalidAddRoster => "`/add` needs between 1 and 10 users"@,
    }
}

impl CommandError {
    /// The text shown to users for this error.
    pub fn message(&self) -> (r: String)
        ensures
            r@ == command_fault_message(self@),
    {
        let mut s = String::new();
        match self {
            CommandError::MissingData => append(&mut s, "missing command data"),
            CommandError::UnknownCommand(c) => {
                append(&mut s, "unknown command `");
                append(&mut s, c.as_str());
                append(&mut s, "`");
            },
            CommandError::MissingOption(n) => {
                append(&mut s, "missing option `");
                append(&mut s, n.as_str());
                append(&mut s, "`");
            },
            CommandError::ExpectedString(n) => {
                append(&mut s, "option `");
                append(&mut s, n.as_str());
                append(&mut s, "` must be a string");
            },
            CommandError::ExpectedUser(n) => {
                append(&mut s, "option `");
                append(&mut s, n.as_str());
                append(&mut s, "` must be a Discord user");
            },
            CommandError::InvalidOption { name, reason } => {
                append(&mut s, "invalid option `");
                append(&mut s, name.as_str());
                append(&mut s, "`: ");
                append(&mut s, reason.as_str());
            },
            CommandError::InvalidCreateRoster => append(
                &mut s,
                "`/create` needs an even roster between 2 and 10 users",
            ),
            CommandError::InvalidGameRoster => append(&mut s, "`/game` needs between 2 and 10 users"),
            CommandError::InvalidAddRoster => append(&mut s, "`/add` needs between 1 and 10 users"),
        }
        s
    }
}

// ---------------------------------------------------------------------------
// Option lookups
// ---------------------------------------------------------------------------

pub open spec fn option_names(opts: Seq<CommandOption>) -> Seq<Seq<char>> {
    opts.map_values(|o: CommandOption| o.name@)
}

/// The text value of an option, when it has one.
pub open spec fn option_text(o: CommandOption) -> Option<Seq<char>> {
    match o.value {
        Some(OptionValue::Text(t)) => Some(t@),
        _ => None,
    }
}

/// The first option with the given name.
pub open spec fn find_named(opts: Seq<CommandOption>, name: Seq<char>) -> Option<CommandOption> {
    match position_of(option_names(opts), name) {
        Some(i) => Some(opts[i]),
        None => None,
    }
}

pub open spec fn string_option_spec(opts: Seq<CommandOption>, name: Seq<char>) -> Result<
    Seq<char>,
    CommandFault,
> {
    match find_named(opts, name) {
        None => Err(CommandFault::MissingOption(name)),
        Some(o) => match option_text(o) {
            Some(t) => Ok(t),
            None => Err(CommandFault::ExpectedString(name)),
        },
    }
}

pub open spec fn optional_string_option_spec(opts: Seq<CommandOption>, name: Seq<char>) -> Result<
    Option<Seq<char>>,
    CommandFault,
> {
    match find_named(opts, name) {
        None => Ok(None),
        Some(o) => match option_text(o) {
            Some(t) => Ok(Some(t)),
            None => Err(CommandFault::ExpectedString(name)),
        },
    }
}

pub open spec fn optional_user_option_spec(opts: Seq<CommandOption>, name: Seq<char>) -> Result<
    Option<Seq<char>>,
    CommandFault,
> {
    match find_named(opts, name) {
        None => Ok(None),
        Some(o) => match option_text(o) {
            Some(t) => Ok(Some(t)),
            None => Err(CommandFault::ExpectedUser(name)),
        },
    }
}

/// The users of the options named `user_...`, in order; the first such option without a text
/// value is refused.
pub open spec fn positional_users_spec(opts: Seq<CommandOption>) -> Result<
    Seq<Seq<char>>,
    CommandFault,
>
    decreases opts.len(),
{
    if opts.len() == 0 {
        Ok(Seq::empty())
    } else if starts_with(opts[0].name@, "user_"@) {
        match option_text(opts[0]) {
            None => Err(CommandFault::ExpectedUser("user_n"@)),
            Some(t) => match positional_users_spec(opts.drop_first()) {
                Ok(rest) => Ok(seq![t] + rest),
                Err(e) => Err(e),
            },
        }
    } else {
        positional_users_spec(opts.drop_first())
    }
}

pub open spec fn mode_spec(value: Seq<char>, name: Seq<char>) -> Result<GameModeKind, CommandFault> {
    match mode_from_name(value) {
        Some(m) => Ok(m),
        None => Err(
            CommandFault::InvalidOption { name, reason: "unknown game mode `"@ + value + "`"@ },
        ),
    }
}

pub open spec fn team_spec(value: Seq<char>, name: Seq<char>) -> Result<TeamSide, CommandFault> {
    match team_side_from_name(value) {
        Some(t) => Ok(t),
        None => Err(
            CommandFault::InvalidOption { name, reason: "invalid team side `"@ + value + "`"@ },
        ),
    }
}

pub open spec fn mode_option_spec(opts: Seq<CommandOption>, name: Seq<char>) -> Result<
    GameModeKind,
    CommandFault,
> {
    match string_option_spec(opts, name) {
        Ok(v) => mode_spec(v, name),
        Err(e) => Err(e),
    }
}

pub open spec fn optional_mode_option_spec(opts: Seq<CommandOption>, name: Seq<char>) -> Result<
    Option<GameModeKind>,
    CommandFault,
> {
    match optional_string_option_spec(opts, name) {
        Ok(Some(v)) => match mode_spec(v, name) {
            Ok(m) => Ok(Some(m)),
            Err(e) => Err(e),
        },
        Ok(None) => Ok(None),
        Err(e) => Err(e),
    }
}

pub open spec fn team_option_spec(opts: Seq<CommandOption>, name: Seq<char>) -> Result<
    TeamSide,
    CommandFault,
> {
    match string_option_spec(opts, name) {
        Ok(v) => team_spec(v, name),
        Err(e) => Err(e),
    }
}

pub open spec fn optional_team_option_spec(opts: Seq<CommandOption>, name: Seq<char>) -> Result<
    Option<TeamSide>,
    CommandFault,
> {
    match optional_string_option_spec(opts, name) {
        Ok(Some(v)) => match team_spec(v, name) {
            Ok(t) => Ok(Some(t)),
            Err(e) => Err(e),
        },
        Ok(None) => Ok(None),
        Err(e) => Err(e),
    }
}

/// Match-id normalization errors become option errors; region errors blame `region`.
pub open spec fn normalize_spec(value: Seq<char>, region: Option<Seq<char>>, name: Seq<char>) -> Result<
    Seq<char>,
    CommandFault,
> {
    match normalize_match_id_spec(value, region) {
        Ok(id) => Ok(id),
        Err(f) => Err(
            CommandFault::InvalidOption {
                name: match f {
                    MatchIdFault::UnknownRegion(_) | MatchIdFault::RegionMismatch { .. } => "region"@,
                    _ => name,
                },
                reason: fault_message(f),
            },
        ),
    }
}

pub open spec fn match_id_option_spec(opts: Seq<CommandOption>, name: Seq<char>) -> Result<
    Seq<char>,
    CommandFault,
> {
    match string_option_spec(opts, name) {
        Err(e) => Err(e),
        Ok(v) => match optional_string_option_spec(opts, "region"@) {
            Err(e) => Err(e),
            Ok(region) => normalize_spec(v, region, name),
        },
    }
}

pub open spec fn optional_match_id_option_spec(opts: Seq<CommandOption>, name: Seq<char>) -> Result<
    Option<Seq<char>>,
    CommandFault,
> {
    match optional_string_option_spec(opts, "region"@) {
        Err(e) => Err(e),
        Ok(region) => match optional_string_option_spec(opts, name) {
            Err(e) => Err(e),
            Ok(None) => if region is Some {
                Err(
                    CommandFault::InvalidOption {
                        name: "region"@,
                        reason: "`region` only applies when `riot_match_id` is set"@,
                    },
                )
            } else {
                Ok(None)
            },
            Ok(Some(v)) => match normalize_spec(v, region, name) {
                Ok(id) => Ok(Some(id)),
                Err(e) => Err(e),
            },
        },
    }
}

// ---------------------------------------------------------------------------
// Commands
// ---------------------------------------------------------------------------

// ---------------------------------------------------------------------------
// Discord mentions
// ---------------------------------------------------------------------------

/// How many ASCII digits run from position `i` of `s`.
pub open spec fn digit_run(s: Seq<char>, i: int) -> nat
    decreases s.len() - i,
{
    if 0 <= i < s.len() && is_ascii_digit(s[i]) {
        1 + digit_run(s, i + 1)
    } else {
        0
    }
}

/// The user mention that starts at position `i` of `s`, `<@id>` or `<@!id>` with a non-empty
/// run of digits as the id: the id and the position just after the mention.
pub open spec fn mention_at(s: Seq<char>, i: int) -> Option<(Seq<char>, int)> {
    if 0 <= i && i + 1 < s.len() && s[i] == '<' && s[i + 1] == '@' {
        let start = if i + 2 < s.len() && s[i + 2] == '!' {
            i + 3
        } else {
            i + 2
        };
        let k = digit_run(s, start);
        if k > 0 && start + k < s.len() && s[start + k] == '>' {
            Some((s.subrange(start, start + k), start + k + 1))
        } else {
            None
        }
    } else {
        None
    }
}

/// The ids of the user mentions in `s` from position `i` on, in order; other text is skipped.
pub open spec fn mentions_from(s: Seq<char>, i: int) -> Seq<Seq<char>>
    decreases s.len() - i,
{
    if i < 0 || i >= s.len() {
        seq![]
    } else {
        match mention_at(s, i) {
            Some((id, end)) => if i < end <= s.len() {
                seq![id] + mentions_from(s, end)
            } else {
                seq![]
            },
            None => mentions_from(s, i + 1),
        }
    }
}

/// The ids of the user mentions in a text, in order.
pub open spec fn mention_ids(s: Seq<char>) -> Seq<Seq<char>> {
    mentions_from(s, 0)
}

/// The players of `/create`: the users mentioned in the `users` text, then those of the
/// `user_...` options.
pub open spec fn create_users_spec(opts: Seq<CommandOption>) -> Result<Seq<Seq<char>>, CommandFault> {
    match optional_string_option_spec(opts, "users"@) {
        Err(e) => Err(e),
        Ok(text) => match positional_users_spec(opts) {
            Err(e) => Err(e),
            Ok(positional) => Ok(
                match text {
                    Some(t) => mention_ids(t) + positional,
                    None => positional,
                },
            ),
        },
    }
}

pub open spec fn create_spec(opts: Seq<CommandOption>) -> Result<CommandModel, CommandFault> {
    match optional_mode_option_spec(opts, "mode"@) {
        Err(e) => Err(e),
        Ok(mode) => match create_users_spec(opts) {
            Err(e) => Err(e),
            Ok(users) => if users.len() < 2 || users.len() > 10 || users.len() % 2 != 0 {
                Err(CommandFault::InvalidCreateRoster)
            } else {
                Ok(
                    CommandModel::Create(
                        match mode {
                            Some(m) => m,
                            None => GameModeKind::AramMayhem,
                        },
                        users,
                    ),
                )
            },
        },
    }
}

/// `/create` takes every even roster of 2 to 10 players, in the mode given or ARAM: Mayhem by
/// default, and refuses every other roster size with `InvalidCreateRoster`.
pub proof fn lemma_create_roster_sizes(opts: Seq<CommandOption>)
    ensures
        create_users_spec(opts) matches Ok(users) ==> (optional_mode_option_spec(opts, "mode"@)
            matches Ok(mode) ==> {
            &&& (2 <= users.len() <= 10 && users.len() % 2 == 0) ==> create_spec(opts) == Ok::<
                CommandModel,
                CommandFault,
            >(
                CommandModel::Create(
                    match mode {
                        Some(m) => m,
                        None => GameModeKind::AramMayhem,
                    },
                    users,
                ),
            )
            &&& !(2 <= users.len() <= 10 && users.len() % 2 == 0) ==> create_spec(opts) == Err::<
                CommandModel,
                CommandFault,
            >(CommandFault::InvalidCreateRoster)
        }),
{
}

pub open spec fn game_spec(opts: Seq<CommandOption>) -> Result<CommandModel, CommandFault> {
    match mode_option_spec(opts, "mode"@) {
        Err(e) => Err(e),
        Ok(mode) => match positional_users_spec(opts) {
            Err(e) => Err(e),
            Ok(users) => if users.len() < 2 || users.len() > 10 {
                Err(CommandFault::InvalidGameRoster)
            } else {
                Ok(CommandModel::Game(mode, users))
            },
        },
    }
}

pub open spec fn add_spec(opts: Seq<CommandOption>) -> Result<CommandModel, CommandFault> {
    match positional_users_spec(opts) {
        Err(e) => Err(e),
        Ok(positional) => {
            let users = if positional.len() == 0 {
                match optional_user_option_spec(opts, "user"@) {
                    Ok(Some(u)) => Ok(seq![u]),
                    Ok(None) => Ok(positional),
                    Err(e) => Err(e),
                }
            } else {
                Ok(positional)
            };
            match users {
                Err(e) => Err(e),
                Ok(users) => if users.len() < 1 || users.len() > 10 {
                    Err(CommandFault::InvalidAddRoster)
                } else {
                    match optional_string_option_spec(opts, "game_id"@) {
                        Err(e) => Err(e),
                        Ok(game_id) => Ok(CommandModel::Add(game_id, users)),
                    }
                },
            }
        },
    }
}

pub open spec fn stats_spec(opts: Seq<CommandOption>) -> Result<CommandModel, CommandFault> {
    match optional_user_option_spec(opts, "user"@) {
        Err(e) => Err(e),
        Ok(user) => match optional_string_option_spec(opts, "name"@) {
            Err(e) => Err(e),
            Ok(raw_name) => {
                let name = match raw_name {
                    Some(n) => if trim_seq(n).len() == 0 {
                        None
                    } else {
                        Some(trim_seq(n))
                    },
                    None => None,
                };
                if user is Some && name is Some {
                    Err(
                        CommandFault::InvalidOption {
                            name: "name"@,
                            reason: "use either `name` or `user`, not both"@,
                        },
                    )
                } else {
                    match optional_mode_option_spec(opts, "mode"@) {
                        Err(e) => Err(e),
                        Ok(mode) => Ok(CommandModel::Stats(user, name, mode)),
                    }
                }
            },
        },
    }
}

/// `/winner` takes the winning side from `side`, or from `winner` when `side` is absent.
pub open spec fn winner_spec(opts: Seq<CommandOption>) -> Result<CommandModel, CommandFault> {
    match string_option_spec(opts, "game_id"@) {
        Err(e) => Err(e),
        Ok(game_id) => match optional_team_option_spec(opts, "side"@) {
            Err(e) => Err(e),
            Ok(Some(side)) => Ok(CommandModel::Winner(game_id, side)),
            Ok(None) => match optional_team_option_spec(opts, "winner"@) {
                Err(e) => Err(e),
                Ok(Some(side)) => Ok(CommandModel::Winner(game_id, side)),
                Ok(None) => Err(CommandFault::MissingOption("side"@)),
            },
        },
    }
}

pub open spec fn result_spec(opts: Seq<CommandOption>) -> Result<CommandModel, CommandFault> {
    match string_option_spec(opts, "game_id"@) {
        Err(e) => Err(e),
        Ok(game_id) => match team_option_spec(opts, "winner"@) {
            Err(e) => Err(e),
            Ok(winner) => Ok(CommandModel::Result(game_id, winner)),
        },
    }
}

pub open spec fn results_spec(opts: Seq<CommandOption>) -> Result<CommandModel, CommandFault> {
    match optional_match_id_option_spec(opts, "riot_match_id"@) {
        Err(e) => Err(e),
        Ok(riot_match_id) => match optional_string_option_spec(opts, "game_id"@) {
            Err(e) => Err(e),
            Ok(game_id) => match optional_team_option_spec(opts, "winner"@) {
                Err(e) => Err(e),
                Ok(winner) => Ok(CommandModel::Results(game_id, winner, riot_match_id)),
            },
        },
    }
}

pub open spec fn finish_spec(opts: Seq<CommandOption>) -> Result<CommandModel, CommandFault> {
    match match_id_option_spec(opts, "riot_match_id"@) {
        Err(e) => Err(e),
        Ok(riot_match_id) => match optional_string_option_spec(opts, "game_id"@) {
            Err(e) => Err(e),
            Ok(game_id) => match optional_team_option_spec(opts, "winner"@) {
                Err(e) => Err(e),
                Ok(winner) => Ok(CommandModel::Finish(riot_match_id, game_id, winner)),
            },
        },
    }
}

pub open spec fn hydrate_spec(opts: Seq<CommandOption>) -> Result<CommandModel, CommandFault> {
    match optional_string_option_spec(opts, "game_id"@) {
        Err(e) => Err(e),
        Ok(game_id) => match optional_match_id_option_spec(opts, "riot_match_id"@) {
            Err(e) => Err(e),
            Ok(riot_match_id) => Ok(CommandModel::Hydrate(game_id, riot_match_id)),
        },
    }
}

pub open spec fn link_match_spec(opts: Seq<CommandOption>) -> Result<CommandModel, CommandFault> {
    match optional_string_option_spec(opts, "game_id"@) {
        Err(e) => Err(e),
        Ok(game_id) => match match_id_option_spec(opts, "riot_match_id"@) {
            Err(e) => Err(e),
            Ok(riot_match_id) => Ok(CommandModel::LinkMatch(game_id, riot_match_id)),
        },
    }
}

/// What `parse_command` makes of a command name and its options.
pub open spec fn parse_command_spec(name: Seq<char>, opts: Seq<CommandOption>) -> Result<
    CommandModel,
    CommandFault,
> {
    if name == "register-summoners"@ {
        match string_option_spec(opts, "riot_id"@) {
            Ok(r) => Ok(CommandModel::RegisterSummoners(r)),
            Err(e) => Err(e),
        }
    } else if name == "create"@ {
        create_spec(opts)
    } else if name == "game"@ {
        game_spec(opts)
    } else if name == "add"@ {
        add_spec(opts)
    } else if name == "next"@ {
        Ok(CommandModel::Next)
    } else if name == "randomize"@ {
        match string_option_spec(opts, "game_id"@) {
            Ok(g) => Ok(CommandModel::Randomize(g)),
            Err(e) => Err(e),
        }
    } else if name == "winner"@ {
        winner_spec(opts)
    } else if name == "result"@ {
        result_spec(opts)
    } else if name == "results"@ {
        results_spec(opts)
    } else if name == "finish"@ {
        finish_spec(opts)
    } else if name == "hydrate"@ {
        hydrate_spec(opts)
    } else if name == "link-match"@ {
        link_match_spec(opts)
    } else if name == "end"@ {
        match string_option_spec(opts, "game_id"@) {
            Ok(g) => Ok(CommandModel::End(g)),
            Err(e) => Err(e),
        }
    } else if name == "status"@ {
        match optional_string_option_spec(opts, "game_id"@) {
            Ok(g) => Ok(CommandModel::Status(g)),
            Err(e) => Err(e),
        }
    } else if name == "stats"@ {
        stats_spec(opts)
    } else if name == "leaderboards"@ || name == "leaderboard"@ {
        match optional_mode_option_spec(opts, "mode"@) {
            Ok(m) => Ok(CommandModel::Leaderboards(m)),
            Err(e) => Err(e),
        }
    } else if name == "analysis"@ {
        match optional_mode_option_spec(opts, "mode"@) {
            Ok(m) => Ok(CommandModel::Analysis(m)),
            Err(e) => Err(e),
        }
    } else {
        Err(CommandFault::UnknownCommand(name))
    }
}

// ---------------------------------------------------------------------------
// Executable helpers
// ---------------------------------------------------------------------------

fn find_option(options: &Vec<CommandOption>, name: &str) -> (r: Option<usize>)
    ensures
        match r {
            Some(k) => k < options.len() && position_of(option_names(options@), name@) == Some(
                k as int,
            ),
            None => position_of(option_names(options@), name@) is None,
        },
{
    let ghost names = option_names(options@);
    let mut i: usize = 0;
    while i < options.len()
        invariant
            names == option_names(options@),
            i <= options.len(),
            forall|m: int| 0 <= m < i ==> names[m] != name@,
        decreases options.len() - i,
    {
        if str_eq(options[i].name.as_str(), name) {
            proof {
                lemma_position_of_scan(names, name@, i as int);
            }
            return Some(i);
        }
        i += 1;
    }
    proof {
        lemma_position_of_scan(names, name@, i as int);
    }
    None
}

fn option_text_value(option: &CommandOption) -> (r: Option<String>)
    ensures
        opt_text_view(r) == option_text(*option),
{
    match &option.value {
        Some(OptionValue::Text(t)) => Some(t.clone()),
        _ => None,
    }
}

fn string_option(options: &Vec<CommandOption>, name: &str) -> (r: Result<String, CommandError>)
    ensures
        match string_option_spec(options@, name@) {
            Ok(t) => r matches Ok(s) && s@ == t,
            Err(f) => r matches Err(e) && e@ == f,
        },
{
    match find_option(options, name) {
        None => Err(CommandError::MissingOption(name.to_owned())),
        Some(i) => match option_text_value(&options[i]) {
            Some(t) => Ok(t),
            None => Err(CommandError::ExpectedString(name.to_owned())),
        },
    }
}

fn optional_string_option(options: &Vec<CommandOption>, name: &str) -> (r: Result<
    Option<String>,
    CommandError,
>)
    ensures
        match optional_string_option_spec(options@, name@) {
            Ok(t) => r matches Ok(s) && opt_text_view(s) == t,
            Err(f) => r matches Err(e) && e@ == f,
        },
{
    match find_option(options, name) {
        None => Ok(None),
        Some(i) => match option_text_value(&options[i]) {
            Some(t) => Ok(Some(t)),
            None => Err(CommandError::ExpectedString(name.to_owned())),
        },
    }
}

fn optional_user_option(options: &Vec<CommandOption>, name: &str) -> (r: Result<
    Option<DiscordUserId>,
    CommandError,
>)
    ensures
        match optional_user_option_spec(options@, name@) {
            Ok(t) => r matches Ok(s) && opt_user_view(s) == t,
            Err(f) => r matches Err(e) && e@ == f,
        },
{
    match find_option(options, name) {
        None => Ok(None),
        Some(i) => match option_text_value(&options[i]) {
            Some(t) => Ok(Some(DiscordUserId::from_string(t))),
            None => Err(CommandError::ExpectedUser(name.to_owned())),
        },
    }
}

fn positional_users(options: &Vec<CommandOption>) -> (r: Result<Vec<DiscordUserId>, CommandError>)
    ensures
        match positional_users_spec(options@) {
            Ok(users) => r matches Ok(v) && user_views(v@) == users,
            Err(f) => r matches Err(e) && e@ == f,
        },
{
    let mut users: Vec<DiscordUserId> = Vec::new();
    let mut i: usize = 0;
    assert(options@.skip(0) =~= options@);
    while i < options.len()
        invariant
            i <= options.len(),
            positional_users_spec(options@) == match positional_users_spec(options@.skip(i as int)) {
                Ok(rest) => Ok(user_views(users@) + rest),
                Err(e) => Err(e),
            },
        decreases options.len() - i,
    {
        let ghost rest = options@.skip(i as int);
        assert(rest.drop_first() =~= options@.skip(i + 1));
        assert(rest[0] == options@[i as int]);
        if str_starts_with(options[i].name.as_str(), "user_") {
            match option_text_value(&options[i]) {
                None => {
                    return Err(CommandError::ExpectedUser("user_n".to_owned()));
                },
                Some(t) => {
                    let ghost before = users@;
                    users.push(DiscordUserId::from_string(t));
                    assert(user_views(users@) =~= user_views(before).push(t@));
                    proof {
                        match positional_users_spec(options@.skip(i + 1)) {
                            Ok(more) => {
                                assert(user_views(before) + (seq![t@] + more) =~= user_views(users@)
                                    + more);
                            },
                            Err(_) => {},
                        }
                    }
                },
            }
        }
        i += 1;
    }
    assert(user_views(users@) + Seq::<Seq<char>>::empty() =~= user_views(users@));
    Ok(users)
}

fn parse_mode(value: &str, name: &str) -> (r: Result<GameModeKind, CommandError>)
    ensures
        match mode_spec(value@, name@) {
            Ok(m) => r == Ok::<GameModeKind, CommandError>(m),
            Err(f) => r matches Err(e) && e@ == f,
        },
{
    match GameModeKind::from_str(value) {
        Ok(m) => Ok(m),
        Err(err) => Err(CommandError::InvalidOption { name: name.to_owned(), reason: err.message() }),
    }
}

fn parse_team(value: &str, name: &str) -> (r: Result<TeamSide, CommandError>)
    ensures
        match team_spec(value@, name@) {
            Ok(t) => r == Ok::<TeamSide, CommandError>(t),
            Err(f) => r matches Err(e) && e@ == f,
        },
{
    match TeamSide::from_str(value) {
        Ok(t) => Ok(t),
        Err(err) => Err(CommandError::InvalidOption { name: name.to_owned(), reason: err.message() }),
    }
}

fn mode_option(options: &Vec<CommandOption>, name: &str) -> (r: Result<GameModeKind, CommandError>)
    ensures
        match mode_option_spec(options@, name@) {
            Ok(m) => r == Ok::<GameModeKind, CommandError>(m),
            Err(f) => r matches Err(e) && e@ == f,
        },
{
    let value = string_option(options, name)?;
    parse_mode(value.as_str(), name)
}

fn optional_mode_option(options: &Vec<CommandOption>, name: &str) -> (r: Result<
    Option<GameModeKind>,
    CommandError,
>)
    ensures
        match optional_mode_option_spec(options@, name@) {
            Ok(m) => r == Ok::<Option<GameModeKind>, CommandError>(m),
            Err(f) => r matches Err(e) && e@ == f,
        },
{
    match optional_string_option(options, name)? {
        Some(value) => Ok(Some(parse_mode(value.as_str(), name)?)),
        None => Ok(None),
    }
}

fn team_option(options: &Vec<CommandOption>, name: &str) -> (r: Result<TeamSide, CommandError>)
    ensures
        match team_option_spec(options@, name@) {
            Ok(t) => r == Ok::<TeamSide, CommandError>(t),
            Err(f) => r matches Err(e) && e@ == f,
        },
{
    let value = string_option(options, name)?;
    parse_team(value.as_str(), name)
}

fn optional_team_option(options: &Vec<CommandOption>, name: &str) -> (r: Result<
    Option<TeamSide>,
    CommandError,
>)
    ensures
        match optional_team_option_spec(options@, name@) {
            Ok(t) => r == Ok::<Option<TeamSide>, CommandError>(t),
            Err(f) => r matches Err(e) && e@ == f,
        },
{
    match optional_string_option(options, name)? {
        Some(value) => Ok(Some(parse_team(value.as_str(), name)?)),
        None => Ok(None),
    }
}

fn normalize_match_id(value: &str, region: Option<&str>, name: &str) -> (r: Result<
    String,
    CommandError,
>)
    ensures
        match normalize_spec(
            value@,
            match region {
                Some(x) => Some(x@),
                None => None,
            },
            name@,
        ) {
            Ok(id) => r matches Ok(s) && s@ == id,
            Err(f) => r matches Err(e) && e@ == f,
        },
{
    match normalize_riot_match_id(value, region) {
        Ok(id) => Ok(id),
        Err(err) => {
            let field = match &err {
                MatchIdError::UnknownRegion(_) | MatchIdError::RegionMismatch { .. } => "region".to_owned(),
                _ => name.to_owned(),
            };
            Err(CommandError::InvalidOption { name: field, reason: err.message() })
        },
    }
}

fn as_opt_str(value: &Option<String>) -> (r: Option<&str>)
    ensures
        match value {
            Some(s) => r matches Some(x) && x@ == s@,
            None => r is None,
        },
{
    match value {
        Some(s) => Some(s.as_str()),
        None => None,
    }
}

fn match_id_option(options: &Vec<CommandOption>, name: &str) -> (r: Result<String, CommandError>)
    ensures
        match match_id_option_spec(options@, name@) {
            Ok(id) => r matches Ok(s) && s@ == id,
            Err(f) => r matches Err(e) && e@ == f,
        },
{
    let value = string_option(options, name)?;
    let region = optional_string_option(options, "region")?;
    normalize_match_id(value.as_str(), as_opt_str(&region), name)
}

fn optional_match_id_option(options: &Vec<CommandOption>, name: &str) -> (r: Result<
    Option<String>,
    CommandError,
>)
    ensures
        match optional_match_id_option_spec(options@, name@) {
            Ok(id) => r matches Ok(s) && opt_text_view(s) == id,
            Err(f) => r matches Err(e) && e@ == f,
        },
{
    let region = optional_string_option(options, "region")?;
    match optional_string_option(options, name)? {
        None => {
            if region.is_some() {
                return Err(
                    CommandError::InvalidOption {
                        name: "region".to_owned(),
                        reason: "`region` only applies when `riot_match_id` is set".to_owned(),
                    },
                );
            }
            Ok(None)
        },
        Some(value) => Ok(Some(normalize_match_id(value.as_str(), as_opt_str(&region), name)?)),
    }
}

fn opt_game_id(value: Option<String>) -> (r: Option<GameId>)
    ensures
        opt_id_view(r) == opt_text_view(value),
{
    match value {
        Some(v) => Some(GameId::from_string(v)),
        None => None,
    }
}

fn digit_run_exec(v: &Vec<char>, i: usize) -> (k: usize)
    requires
        i <= v@.len(),
    ensures
        k == digit_run(v@, i as int),
        i + k <= v@.len(),
{
    let mut j: usize = i;
    while j < v.len() && char_is_digit(v[j])
        invariant
            i <= j <= v@.len(),
            digit_run(v@, i as int) == (j - i) + digit_run(v@, j as int),
        decreases v@.len() - j,
    {
        j += 1;
    }
    j - i
}

fn mention_at_exec(v: &Vec<char>, i: usize) -> (r: Option<(String, usize)>)
    requires
        i < v@.len(),
    ensures
        match mention_at(v@, i as int) {
            Some((id, end)) => r matches Some((t, e)) && t@ == id && e == end,
            None => r is None,
        },
{
    let n = v.len();
    if i + 1 < n && v[i] == '<' && v[i + 1] == '@' {
        let start = if i + 2 < n && v[i + 2] == '!' {
            i + 3
        } else {
            i + 2
        };
        let k = digit_run_exec(v, start);
        if k > 0 && start + k < n && v[start + k] == '>' {
            Some((string_from_range(v, start, start + k), start + k + 1))
        } else {
            None
        }
    } else {
        None
    }
}

/// The users mentioned in a text, in order.
pub fn mentioned_users(text: &str) -> (r: Vec<DiscordUserId>)
    ensures
        user_views(r@) == mention_ids(text@),
{
    let v = chars_of(text);
    let mut out: Vec<DiscordUserId> = Vec::new();
    let mut i: usize = 0;
    while i < v.len()
        invariant
            v@ == text@,
            i <= v@.len(),
            mentions_from(v@, 0) == user_views(out@) + mentions_from(v@, i as int),
        decreases v@.len() - i,
    {
        match mention_at_exec(&v, i) {
            Some((id, end)) => {
                let ghost before = out@;
                out.push(DiscordUserId::from_string(id));
                proof {
                    assert(user_views(out@) =~= user_views(before).push(id@));
                    assert(user_views(before) + (seq![id@] + mentions_from(v@, end as int))
                        =~= user_views(out@) + mentions_from(v@, end as int));
                }
                i = end;
            },
            None => {
                i += 1;
            },
        }
    }
    assert(user_views(out@) + Seq::<Seq<char>>::empty() =~= user_views(out@));
    out
}

fn create_users(options: &Vec<CommandOption>) -> (r: Result<Vec<DiscordUserId>, CommandError>)
    ensures
        match create_users_spec(options@) {
            Ok(users) => r matches Ok(v) && user_views(v@) == users,
            Err(f) => r matches Err(e) && e@ == f,
        },
{
    let text = optional_string_option(options, "users")?;
    let positional = positional_users(options)?;
    match text {
        Some(t) => {
            let mut users = mentioned_users(t.as_str());
            let ghost mentioned = users@;
            let mut j: usize = 0;
            while j < positional.len()
                invariant
                    j <= positional@.len(),
                    users@ == mentioned + positional@.subrange(0, j as int),
                decreases positional@.len() - j,
            {
                users.push(positional[j].clone());
                j += 1;
                assert(users@ =~= mentioned + positional@.subrange(0, j as int));
            }
            assert(positional@.subrange(0, positional@.len() as int) =~= positional@);
            assert(user_views(users@) =~= user_views(mentioned) + user_views(positional@));
            Ok(users)
        },
        None => Ok(positional),
    }
}

fn parse_create(options: &Vec<CommandOption>) -> (r: Result<DiscordCommand, CommandError>)
    ensures
        match create_spec(options@) {
            Ok(c) => r matches Ok(x) && x@ == c,
            Err(f) => r matches Err(e) && e@ == f,
        },
{
    let mode = match optional_mode_option(options, "mode")? {
        Some(m) => m,
        None => GameModeKind::AramMayhem,
    };
    let users = create_users(options)?;
    if users.len() < 2 || users.len() > 10 || users.len() % 2 != 0 {
        return Err(CommandError::InvalidCreateRoster);
    }
    Ok(DiscordCommand::Create(CreateCommand { mode, users }))
}

fn parse_game(options: &Vec<CommandOption>) -> (r: Result<DiscordCommand, CommandError>)
    ensures
        match game_spec(options@) {
            Ok(c) => r matches Ok(x) && x@ == c,
            Err(f) => r matches Err(e) && e@ == f,
        },
{
    let mode = mode_option(options, "mode")?;
    let users = positional_users(options)?;
    if users.len() < 2 || users.len() > 10 {
        return Err(CommandError::InvalidGameRoster);
    }
    Ok(DiscordCommand::Game(GameCommand { mode, users }))
}

fn parse_add(options: &Vec<CommandOption>) -> (r: Result<DiscordCommand, CommandError>)
    ensures
        match add_spec(options@) {
            Ok(c) => r matches Ok(x) && x@ == c,
            Err(f) => r matches Err(e) && e@ == f,
        },
{
    let mut users = positional_users(options)?;
    if users.len() == 0 {
        match optional_user_option(options, "user")? {
            Some(user) => {
                users.push(user);
                assert(user_views(users@) =~= seq![user@]);
            },
            None => {},
        }
    }
    if users.len() < 1 || users.len() > 10 {
        return Err(CommandError::InvalidAddRoster);
    }
    let game_id = opt_game_id(optional_string_option(options, "game_id")?);
    Ok(DiscordCommand::Add(AddCommand { game_id, users }))
}

fn parse_stats(options: &Vec<CommandOption>) -> (r: Result<DiscordCommand, CommandError>)
    ensures
        match stats_spec(options@) {
            Ok(c) => r matches Ok(x) && x@ == c,
            Err(f) => r matches Err(e) && e@ == f,
        },
{
    let user = optional_user_option(options, "user")?;
    let name = match optional_string_option(options, "name")? {
        Some(raw) => {
            let t = trim(raw.as_str());
            if t.as_str().is_empty() {
                None
            } else {
                Some(t)
            }
        },
        None => None,
    };
    if user.is_some() && name.is_some() {
        return Err(
            CommandError::InvalidOption {
                name: "name".to_owned(),
                reason: "use either `name` or `user`, not both".to_owned(),
            },
        );
    }
    let mode = optional_mode_option(options, "mode")?;
    Ok(DiscordCommand::Stats(StatsCommand { user, name, mode }))
}

fn parse_winner(options: &Vec<CommandOption>) -> (r: Result<DiscordCommand, CommandError>)
    ensures
        match winner_spec(options@) {
            Ok(c) => r matches Ok(x) && x@ == c,
            Err(f) => r matches Err(e) && e@ == f,
        },
{
    let game_id = GameId::from_string(string_option(options, "game_id")?);
    let winner = match optional_team_option(options, "side")? {
        Some(side) => side,
        None => match optional_team_option(options, "winner")? {
            Some(side) => side,
            None => {
                return Err(CommandError::MissingOption("side".to_owned()));
            },
        },
    };
    Ok(DiscordCommand::Winner(WinnerCommand { game_id, winner }))
}

fn parse_result(options: &Vec<CommandOption>) -> (r: Result<DiscordCommand, CommandError>)
    ensures
        match result_spec(options@) {
            Ok(c) => r matches Ok(x) && x@ == c,
            Err(f) => r matches Err(e) && e@ == f,
        },
{
    let game_id = GameId::from_string(string_option(options, "game_id")?);
    let winner = team_option(options, "winner")?;
    Ok(DiscordCommand::Result { game_id, winner })
}

fn parse_results(options: &Vec<CommandOption>) -> (r: Result<DiscordCommand, CommandError>)
    ensures
        match results_spec(options@) {
            Ok(c) => r matches Ok(x) && x@ == c,
            Err(f) => r matches Err(e) && e@ == f,
        },
{
    let riot_match_id = optional_match_id_option(options, "riot_match_id")?;
    let game_id = opt_game_id(optional_string_option(options, "game_id")?);
    let winner = optional_team_option(options, "winner")?;
    Ok(DiscordCommand::Results(ResultsCommand { game_id, winner, riot_match_id }))
}

fn parse_finish(options: &Vec<CommandOption>) -> (r: Result<DiscordCommand, CommandError>)
    ensures
        match finish_spec(options@) {
            Ok(c) => r matches Ok(x) && x@ == c,
            Err(f) => r matches Err(e) && e@ == f,
        },
{
    let riot_match_id = match_id_option(options, "riot_match_id")?;
    let game_id = opt_game_id(optional_string_option(options, "game_id")?);
    let winner = optional_team_option(options, "winner")?;
    Ok(DiscordCommand::Finish(FinishCommand { riot_match_id, game_id, winner }))
}

fn parse_hydrate(options: &Vec<CommandOption>) -> (r: Result<DiscordCommand, CommandError>)
    ensures
        match hydrate_spec(options@) {
            Ok(c) => r matches Ok(x) && x@ == c,
            Err(f) => r matches Err(e) && e@ == f,
        },
{
    let game_id = opt_game_id(optional_string_option(options, "game_id")?);
    let riot_match_id = optional_match_id_option(options, "riot_match_id")?;
    Ok(DiscordCommand::Hydrate(HydrateCommand { game_id, riot_match_id }))
}

fn parse_link_match(options: &Vec<CommandOption>) -> (r: Result<DiscordCommand, CommandError>)
    ensures
        match link_match_spec(options@) {
            Ok(c) => r matches Ok(x) && x@ == c,
            Err(f) => r matches Err(e) && e@ == f,
        },
{
    let game_id = opt_game_id(optional_string_option(options, "game_id")?);
    let riot_match_id = match_id_option(options, "riot_match_id")?;
    Ok(DiscordCommand::LinkMatch(LinkMatchCommand { game_id, riot_match_id }))
}

/// Parses a slash command from its name and options.
pub fn parse_command(data: &ApplicationCommandData) -> (r: Result<DiscordCommand, CommandError>)
    ensures
        match parse_command_spec(data.name@, data.options@) {
            Ok(c) => r matches Ok(x) && x@ == c,
            Err(f) => r matches Err(e) && e@ == f,
        },
{
    let name = data.name.as_str();
    let options = &data.options;
    if str_eq(name, "register-summoners") {
        let riot_id = string_option(options, "riot_id")?;
        Ok(DiscordCommand::RegisterSummoners { riot_id })
    } else if str_eq(name, "create") {
        parse_create(options)
    } else if str_eq(name, "game") {
        parse_game(options)
    } else if str_eq(name, "add") {
        parse_add(options)
    } else if str_eq(name, "next") {
        Ok(DiscordCommand::Next)
    } else if str_eq(name, "randomize") {
        let game_id = GameId::from_string(string_option(options, "game_id")?);
        Ok(DiscordCommand::Randomize { game_id })
    } else if str_eq(name, "winner") {
        parse_winner(options)
    } else if str_eq(name, "result") {
        parse_result(options)
    } else if str_eq(name, "results") {
        parse_results(options)
    } else if str_eq(name, "finish") {
        parse_finish(options)
    } else if str_eq(name, "hydrate") {
        parse_hydrate(options)
    } else if str_eq(name, "link-match") {
        parse_link_match(options)
    } else if str_eq(name, "end") {
        let game_id = GameId::from_string(string_option(options, "game_id")?);
        Ok(DiscordCommand::End { game_id })
    } else if str_eq(name, "status") {
        let game_id = opt_game_id(optional_string_option(options, "game_id")?);
        Ok(DiscordCommand::Status { game_id })
    } else if str_eq(name, "stats") {
        parse_stats(options)
    } else if str_eq(name, "leaderboards") || str_eq(name, "leaderboard") {
        let mode = optional_mode_option(options, "mode")?;
        Ok(DiscordCommand::Leaderboards { mode })
    } else if str_eq(name, "analysis") {
        let mode = optional_mode_option(options, "mode")?;
        Ok(DiscordCommand::Analysis { mode })
    } else {
        Err(CommandError::UnknownCommand(data.name.clone()))
    }
}

} // verus!
