# strand

A terminal UI over the issues of `bd` (beads), with three agent workflows: *enrich* (append
problems and candidate solutions to an issue), *split* (turn an issue into an epic with
subtasks) and *implement* (let the agent work in a git worktree of its own, then merge the
branch into the epic's branch or into master).

## Layout

- `src/` is the verified library: the data, the state changes and the decisions of the program,
  each with its contract:
  - `bd`: the issue record, short ids, the top-level list (not-closed epics).
  - `core_state`: the application state (issue store, filter, page, page stack, key bar).
  - `action`: the actions key handlers return, navigation between pages, the state changes an
    action makes on its own, and the decisions behind merging, discarding and copying.
  - `page`: the key bindings of the three pages and the selectors they open.
  - `selector`, `keybar`: the execute- and toggle-selectors and the key bar that hosts them.
  - `ai`: prompts, answer extraction, job records and output, and the state of each workflow
    (`enrich`, `split`, `implement` with its job table and worktree discovery).
  - `editor`: reading back the text written in `$EDITOR`.
  - `enrich`: the first form of the enrich workflow (rewritten description and design notes).
  - `text`, `paths`: string helpers stated over `Seq<char>`, and paths as strings.
- `app/` is the program around it: the terminal, the event loop, `bd` and `git` commands,
  detached agent processes, and the serde forms of the library's data. It also keeps the small
  choices that are made between two outside commands: which action runs after a command
  succeeded, the order of the `bd` commands a finished agent job runs on its issue, and the
  drawing of the pages.
- `tests/` runs the library on concrete values.
