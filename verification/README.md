# genshin_roles

The rules of a RoleLogic plugin that links Discord accounts with Genshin
Impact player data from Enka.Network, written in Verus with their contracts
proved.

## Layout

- `src/` — the verified library.
  - `condition`, `condition_eval`, `calendar`: role conditions, their
    evaluation against a profile, and the Spiral Abyss reset schedule that
    decides whether abyss data is current.
  - `schema`: reading a submitted configuration form into a condition, and
    the configuration form (as JSON text) that shows a stored condition.
  - `sync`: the role changes a player needs, and the SQL that selects the
    members a role link admits.
  - `verification`: UID rules, verification codes, the verification page and
    the decisions of its endpoints.
  - `refresh`, `enka`: the refresh schedule of cached profiles and the reading
    of Enka's answers.
  - `config`, `error`, `player`, `json`, `text`: settings, errors and their
    responses, stored rows, JSON values and character-level text utilities.
- `tests/` — tests run against the compiled library.
- `app/` — the service around the library: configuration from the
  environment, the database pool, the Enka HTTP client with its rate limiter,
  the refresh worker loop, and an HTTP server that serves the verification
  page (`GET /verify`). The sign-in, account-linking and plugin endpoints and
  the role sync worker need the Discord OAuth and RoleLogic clients, which
  this repository does not contain; the library holds their decisions
  (`verification`, `sync`).

The public proof functions (`field_key_round_trip`,
`form_values_read_back`, `abyss_reset_is_most_recent`,
`sync_plan_matches_qualification`, ...) state the properties that hold across
calls.
