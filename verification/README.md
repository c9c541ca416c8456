# oqto

The decision logic of the oqto backend, written in Verus: each public
function carries a contract, and Verus proves the code against it.

- `src/` — the verified library. One module per concern:
  - `auth`, `api_keys`, `oauth`, `routes`: request credentials, API keys,
    OAuth provider rules, the body limit and the cross-origin policy;
  - `shared_workspace`: member roles and permission rules, names, slugs,
    paths and `USERS.md`;
  - `linux_users`, `usermgr`: Linux account naming, the privileged commands
    and their routing, and the user manager daemon's commands, unit files
    and checks;
  - `pi_session`, `pi_reader`, `pi_history`, `pi_models`: the Pi session
    state machine, the output reader's decisions, matching Pi's session log
    against persisted messages, and model lists;
  - `admin`, `eavs`, `mmry_config`, `state`, `history`, `protocol`,
    `commands`: admin tooling, the eavs client's requests, the memory
    service's config edit, and the shared data types;
  - `text`, `num`: string and number helpers with their specifications.
- `tests/` — tests run against the compiled library.
- `app/` — plain Rust around the library: running commands, the user
  manager socket client, and reading and writing the files whose contents
  the library decides.
