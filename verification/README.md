# rsso

Discord-native League of Legends in-house tracking: players claim Riot IDs, the bot keeps one
open game per guild, splits rosters into even teams with a Fisher-Yates shuffle, rotates teams
with `/next`, finalizes winners and ratings, and follows live and finished Riot matches.

The library under `src/` is written in Verus and verified:

- `domain`: ids, game modes and their queues, the game state machine, shuffling and even splits.
- `riot`: Riot ID parsing, routing hosts and URLs, the Account/Match/Spectator data shapes.
- `discord`: interaction shapes, slash-command parsing, responses, the command manifest, and
  the Ed25519 request check.
- `storage`: stored rows, claim conflicts and the rating bookkeeping of a finalized game.
- `handlers`: what every command decides between its reads and writes, and the texts it answers.
- `cron`: what the scheduled poll decides for each open game, and its tally.
- `worker`: request routing, interaction planning and the conversion of Riot data.
- `text`: the string helpers the rest is built on.

`app/` holds what Verus does not take: the command-line tool, the async command and poll loops
over the store, the Cloudflare Worker entry points and its D1 store, serde shapes, and the
floating-point Elo and win-rate arithmetic.
