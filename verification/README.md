# dsh_desktop

The verified core of the DeepSeek Harness desktop shell, a Tauri window
around the `dsh web` UI that also installs a private Node.js toolchain on
first launch, keeps dsh and the app up to date, and writes a desktop log.

- `src/` is the library, written in Verus: how dsh is found, launched and
  upgraded, the first-launch bootstrap's paths and URLs, Node.js and SemVer
  checks, PATH assembly, dsh output parsing, UTC timestamps, base64, the
  once-a-day update prompt, localized menus and dialogs, and the Windows
  title bar script. Every function carries a contract that Verus proves;
  calls into `semver`, `serde_json` and std string functions Verus does not
  specify go through small trusted wrappers whose contracts are documented
  where they are declared.
- `tests/` runs the library on concrete values.
- `app/` is the Tauri program: windows, dialogs, menus, the updater,
  child processes, files and the environment. It hands the library plain
  values and acts on what the library returns.
