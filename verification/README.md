# os1_hermes

The logic of the OS1 Windows client, verified with Verus: how it finds Hermes on
the machine and in WSL, lists and creates Hermes profiles, checks a profile's
runtime, sets up its model provider, runs Hermes and shell commands in it, and
keeps the memory vault of voice sessions.

## Layout

- `src/` — the verified library.
  - `text`, `output`: strings, lines, decimal numbers, and what the client makes
    of command output (decoding, compacting, exit markers, error summaries).
  - `profile`: profile names, memory slugs, and the paths and command lines of a
    profile's runtime.
  - `status`: detection of native Hermes, the local home and WSL distros; the
    runtime status of a profile.
  - `bridge`: the requests the WSL operations make and the replies they get, and
    the steps they share (choosing a distro, the Linux home, finding the CLI).
  - `catalog`, `create`, `runtime`, `provider`, `ops`: the WSL operations, each a
    state machine that turns a reply into its next request or its result.
  - `env`, `memory`, `journal`: settings, the memory vault, and saving a session's
    memory.
  - `json`: the calls into `serde_json`.
- `tests/` — tests of the library, with scripted replies for the operations.
- `app/` — the Tauri application: it runs `wsl.exe` and other programs, reads and
  writes files, calls the OpenAI API, and answers each operation's requests.
