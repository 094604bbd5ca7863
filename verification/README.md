# schematize-updater (verified core)

Installs and updates the schematize app (CLI `schematize` + GUI `schematize-gui`) on
Linux, macOS and Windows: from the precompiled release binary when one exists for the
platform and runs here, otherwise by building from source in persistent checkouts.

Layout:

- `src/` — the library, verified with Verus. Every decision lives here:
  - `versao` — the version a `Cargo.toml` declares, the version `--version` prints,
    the pin (`pin latest` unpins; a version is recorded without the tag's `v`), the
    target version, and the numeric order of versions (a strict order, proved).
  - `plataforma` — names of binaries and release assets per system, the places under
    the home directory, the Linux family, the build-dependency plans, the rustup
    bootstrap, the PATH set-up (idempotent, proved) and the desktop launcher.
  - `purga` — the stale copies removed before installing, and on Linux the old
    launcher and autostart entries (never in the destination directory, proved).
  - `instalacao` — the install route, the steps of the binary route, the ordered build
    plan, the order of the steps of a build from source, and the git/cargo invocations.
  - `comando` — the external commands (curl/PowerShell, PATH probes, pkill/taskkill,
    chmod) and the reading of their output.
  - `cli` — the meaning of the command line.
  - `estado` — the lines of the `status` report.
  - `texto` — trimming, prefixes, substring search; the one trusted item,
    `str::to_lowercase`, is named there.
- `app/` — the program: runs the commands, touches files, prints.
- `tests/` — tests of the library on concrete values.
