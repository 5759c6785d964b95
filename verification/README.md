# ruda

`ruda` manages single-binary deployments on machines of your own: a web
dashboard holds applications, their environments, machines, code sources,
keys and storages, and a runner on each machine calls back home to the
dashboard over a websocket.

This crate is the verified core of the platform, written in Verus:

- `src/` — the library. Its functions carry `requires`/`ensures`
  contracts that Verus proves, except the few small wrappers around
  outside crates (`uuid`, `chrono`, `names`, `url`, `sysinfo`), marked
  `external_body`, whose contracts are trusted as their sources show them;
  two of those (the machine's processor count, the current year) promise
  nothing of their result.
  - `ids`, `text`, `time`, `namegen`: identifiers and their text form,
    decimal numerals, splitting, parsing numbers, timestamps, and drawn
    names.
  - `dash::data`: the stored records (applications, environments, machines,
    projects, keys, storages, user data, sources).
  - `dash::pages`: what each dashboard page shows and what its handlers
    decide (redirects, filtering by project, forms, deployment planning,
    GitHub installations).
  - `dash::realtime`: routing requests to an application's machine and
    answering a runner's introduction, with its laws (idempotence, which
    machine is connected).
  - `dash::startup`, `dash::util`, `dash::mock`: records made when the
    dashboard starts, for a new user, and for development.
  - `runner`, `cli`, `config`: the runner's messages and answers, the
    command-line program's decisions and the shared configuration.
- `tests/` — tests of the library on concrete values.
- `app/` — the `ruda` command-line program around the library: argument
  handling, configuration files, the runner's websocket connection and
  message framing, and the system service.

Not here: the dashboard server itself — its HTTP routing, page templates,
database, GitHub client and the realtime socket server — stands in neither
`src/` nor `app/`, because the web framework, template, database and GitHub
crates it is built on are not available to this crate; every decision its
handlers make is in `src/dash`. The command-line program has no `login`
command yet; `deploy` takes its access key from the configured
`login.key`.
The runner connects to the realtime port on this host
(`ws://localhost:10001`); the configured platform address is only reported.
