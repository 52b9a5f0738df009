# gram

A command-line Telegram client. The library (`src/`) holds the logic and is
verified with Verus; `app/` is the terminal front end (REPL, TDLib client,
configuration files, notifications, tables).

Library modules:

- `text`: shortening, decimal numbers, replacing, joining.
- `conf`: labels, sender display modes, defaults.
- `settings`: the `[settings]` table: get, set, list.
- `chat`: chat references, chat lists, what a typed message is sent as.
- `commands`: the commands and what each asks the front end to do.
- `history`: paging through a chat's history.
- `display`: table cells and rows, notification texts.
- `repl`: blank lines, quotes, words, lines, the word being completed.
- `completion`: the command tree that completion walks.
- `script`: which script files run, their command lines, their errors.
- `forward`: reposting a received message's content.
