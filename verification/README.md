# BnetSwitchLite

An account switcher for the Battle.net desktop client on Windows and macOS. It saves the
login state of each account, puts a saved one in place, begins and completes logins, and
brings the client's state back when an operation fails or is interrupted.

`src/` is a Verus library: the rules by which accounts are found, saved, switched to,
logged in, hidden and recovered. Every item of it is verified. `app/` is the desktop
application around it in ordinary Rust: files, processes, the registry and the preferences,
the operating systems' interfaces and the requests of the front end.

## Operations

An operation that alternates between decisions and work outside the library is a value. It
names the work that has to be done next, and its method `resume` takes what came of that
work and gives the next step (`src/step.rs`). What each step is, for every state and every
outcome of the work, is stated by a specification function beside it (`next` or
`leads_to`). The laws of an operation speak of all of its runs, whatever work fails and
wherever it is interrupted.

## Layout

- `account_reader`, `contracts`, `data_store`, `error`: the client's account cache, what the
  front end is shown, the settings and hidden accounts, errors and their messages.
- `login_completion`, `commands`: logins that are being completed, and their cancellation.
- `service_common`, `ordered`, `text`, `tree_walk`, `step`: what both systems share.
- `json`, `property_list`, `outside`: what the library has from `serde_json`, `plist`,
  `uuid` and `sha2`. These modules and `text` hold all that is taken on trust.
- `platform/windows`: snapshots of the client's files (`snapshot`, `capturing`,
  `snapshot_store`), their replacement and the recovery slot (`restore`, `recovery`), logins
  (`login_session`, `authentication`, `config`), the service (`app_service`, `switching`,
  `logins`, `completing`, `managing`, `recovering`) and opening its directories (`opening`).
  `crash_safety` states what holds of the client's files wherever an operation is
  interrupted; `transactions` and `saved_accounts` state what whole calls come to, one after
  another; `outcomes` states all outcomes of each call that moves the client's files.
- `platform/macos`: private files (`secure_fs`, `private_files`), saved logins
  (`secure_snapshot`, `saved_accounts`, `preferences`), the recovery slot (`recovery`,
  `slot_safety`, `transactions`), the client's processes (`process`, `lifecycle`), and the
  service.

Public functions whose names begin with `law_` are proofs of what the library promises as a
whole.

## The application

The desktop shell needs Tauri with its dialog and single-instance plugins and the bindings to
Windows and macOS; the packaging of each system adds them. Elsewhere `app/` builds without
the shell and with the operating system behind the traits `windows::System` and
`macos::System`.
