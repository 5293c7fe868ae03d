# big_brother

A tracker for nixpkgs pull requests: given a pull request number, it asks the
GitHub API whether the pull request was merged and into which of the channel
branches (`master`, `nixpkgs-unstable`, `nixos-unstable`, ...) its merge commit
has already landed, and shows the answer on a web page. A Discord bot answers
`!ping`.

Layout:

- `src/` — the verified library (Verus).
  - `text.rs`: decimal rendering, string comparison, listen addresses.
  - `github.rs`: repositories, API addresses, the `Authorization` header,
    `GithubError` and its messages, the API records, the constructors of the
    calls that fetch a pull request and compare a branch with a commit.
  - `ratelimit.rs`: how long to wait before a request, with and without an
    API key.
  - `call.rs`: one API call as a state machine (quota check or pacing, the
    request, reading the answer), with its progress laws.
  - `web.rs`: what the pull request page shows, from the fetched record and
    the branch checks.
  - `discord.rs`: the bot's replies.
  - `database.rs`: the stored pull request and the database's location.
- `app/` — the program around it: HTTP with reqwest, the axum server, page
  markup, the Discord client, sqlite, command-line arguments and logging.
- `tests/` — tests of the library.
