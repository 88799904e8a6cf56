# omnilan

A LAN proxy gateway orchestrator: one YAML configuration drives either the
mihomo or the sing-box kernel, turns the host into the LAN's gateway (IP
forwarding, NAT, DNS redirection, per-device policy routes) and records how
to undo every change it made.

The library under `src/` is written in Verus. Each public function carries a
contract over a mathematical model of its inputs and result, and the
properties that span several functions are stated as public proof functions
whose names start with `law_`.

- `config` – the configuration model, its default and its validation.
- `text` – decimal text and path joining in the target platform's style.
- `cli` – the command-line grammar of both front ends.
- `engine` – kernel profiles (YAML for mihomo, JSON for sing-box), launch
  commands and binary checks.
- `gateway`, `platform`, `infra::platform` – the host changes on Linux,
  macOS and Windows, described as plans of commands with their rollbacks.
- `plan` – the state machine that runs a plan one command at a time and
  collects the rollback commands of what it changed.
- `infra::platform::pf` – the macOS gateway and device routes as state
  machines over commands, the default interface and the pf anchor files.
- `enforcement` – which devices the policy-route mode redirects.
- `infra::kernel`, `infra::service` – kernel release assets and download
  commands, and the boot service units.
- `application::runner` – the decisions of the command runner.

`app/` is the executable around the library: argument fallback through clap,
file and process I/O, the YAML and JSON files, signals and logging.
