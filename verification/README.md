# Quota router

Switches between saved logins of a command line client on macOS and shows quota
timing in its statusline. When a team account runs into its quota, an enterprise
account takes over until the quota starts anew.

One executable serves two programs. The name under which it is installed says
which one, and which client it serves: for a client with the command `acme` these
are `acme-quota-router` and `acme-plan-swap`.

Under another name, the environment variable `QUOTA_ROUTER_PROGRAM` says it.

In auto mode both go by the kind of an account, not by its name: from a full team
account to the first enterprise account by name and, once a reset time has
passed, back to the team account that was left. The quota router names that
account in what it shows; the plan-swap program speaks of plans and of the team.

## Use

```bash
acme-quota-router setup team-main --kind team
acme-quota-router setup enterprise-main --kind enterprise
acme-quota-router install
acme-quota-router config --alert-at 95 --mode auto
acme-quota-router switch enterprise-main --yes
acme-quota-router toggle --yes
acme-quota-router list
acme-quota-router status
```

## Storage

| Data | Location |
|---|---|
| Saved credentials | Keychain service named after the program |
| Credential in use | Keychain service `<Client> Code-credentials` |
| Accounts | `~/.config/<program>/state.json` |
| Quota cache | `~/.config/<program>/rate-limits.json` |

Credentials pass from the Keychain to the Keychain: no type that is written to a
file has a place for one. That is how `app/` is built; it is not verified.

## Layout

- `src/` decides: what to show, what to ask of the Keychain, what to store and
  where to switch. It is verified with Verus; each module states its contracts,
  and `switch_laws.rs` and `state_laws.rs` state what holds of whole runs.
- `app/` does: it reads and writes files, runs tools and prints.
- `tests/` runs the library on concrete values.

What is trusted is in `src/json.rs` (calls into `serde_json`) and at the top of
`src/text.rs` (`String::push`).
