# arena

The rules behind the arena's tournaments, leaderboards and pages, written in
Verus. Every decision that a request depends on is a function with a contract;
reading, writing and drawing are left to `app/`.

- `ids`, `text`, `time`, `lists`: identifiers, text, points in time and lists,
  and how they are shown.
- `model`, `forms`: what is stored, and what requests send along.
- `rules`, `import`: who may register, view, edit and start, and which snakes a
  leaderboard sends to a tournament.
- `flow`, `registration`, `lifecycle`, `settings`, `membership`: requests, one
  step at a time. Each function names the next step from what is known so far.
- `runs`: what whole requests come to.
- `bracket`, `tournament_forms`, `tournament_page`: what the pages of
  tournaments show.
- `paging`, `leaderboard_page`, `entry_page`: what the pages of leaderboards
  show.
- `page`, `markup`: the frame around every page, and text as it stands in it.

`app/` holds the web handlers and their templates, with everything that goes by
floating-point scores.
