# fmbot

A Discord bot with last.fm commands, written as a verified library and a thin
program around it.

- `src/` is the library, verified with Verus:
  - `apis/lastfm/`: the last.fm client. `params` holds the query parameters
    (a map that keeps the order of its names), `api` prepares and signs calls
    and reads replies, `structs` holds the chart periods and the reply values,
    `user` builds the `user.*` calls.
  - `commands/`: the text and decisions behind each command.
  - `modules/`: the hooks around commands and the optional-argument rule.
  - `text`: decimal and hexadecimal renderings, joining.
- `app/` is the program: Discord, HTTP, JSON and the database, calling the
  library for everything it computes.
- `tests/` runs the library on concrete values.
