# thunderbird_release

Thunderbird release automation, with its logic verified by Verus.

- `src/` is the verified library:
  - `protocol`, `connection`, `api`, `error`: the Mercurial command-server
    wire format (frames, `runcommand`, return codes), the hello handshake,
    the collection of a command's output, and the arguments of each `hg`
    command.
  - `mach`: the `./mach` subcommands and the meaning of their exit codes.
  - `release`: repositories per channel, uplift message rewriting, tag
    selection, `.gecko_rev.yml` pinning, and the release commands as state
    machines (`Step` asked for, `Event` answered) chained by a `Workflow`.
  - `release_cli`: patch comparison after grafts and the full workflow of
    `release-cli`.
  - `pattern`, `text`: regular expressions through the `regex` crate, and
    text helpers with their specifications.
- `app/` is the executable: the command line, the `hg` process and pipe,
  `./mach`, files, the tag service and logging. It performs the steps the
  library asks for and hands back what they produced.
- `tests/` runs the library on concrete inputs.
