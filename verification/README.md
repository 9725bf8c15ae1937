# Helium Browser Updater, verified

A Windows updater for the Helium browser. The library under `src/` holds the
updater's decisions, each proved against its contract with Verus; the program
under `app/` performs the input and output (PowerShell, files, the window) and
hands the library plain values.

- `versioning`: finding a dotted version in text, reading it as four numbers,
  comparing two versions.
- `github`: reading GitHub's release description, choosing the installer asset.
- `helium`: the architecture, what is known of an installation, the scripts that
  probe, close or start the browser.
- `powershell`: quoting values for scripts, reading what a script run returned.
- `scheduler`: the scripts for the daily task.
- `logging`: log lines and their time stamps.
- `install`: download, digest, installer and lock decisions.
- `service`: configuration, remembered state, whether an update is due, the
  dashboard, and what each run records.
- `runs`: the background run and the manual install as step functions, with
  their laws.
- `icon`: decoding the window icon.
- `text`: character-level helpers.
