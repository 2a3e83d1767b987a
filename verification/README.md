# git-branch-manager

A keyboard-driven terminal tool for browsing, switching to, and bulk-deleting
local git branches, with its logic verified by Verus.

- `src/` is the verified library:
  - `app.rs`: the application state, navigation and paging, selection, the
    delete flow (safe deletes at once, force and worktree deletes after
    confirmation), switching, and the key bindings. `App` keeps a ghost log
    of the calls it makes to git, with git's answers; the contracts say which
    calls each operation makes, with which names, and what follows from the
    answers.
  - `branch.rs`: a branch, how a delete request classifies it, and the order
    of the list (by name, as bytes).
  - `git.rs`: the `GitOperations` trait and the libgit2 queries that build the
    branch list, delete a branch and switch to one. Each query has a form
    that records its calls into libgit2 in a ghost trace, with the answers it
    got; its contract says which calls it makes, in which order, with which
    arguments, and what it returns for those answers.
  - `trace.rs`: the calls into libgit2 and the call sequences each query is
    bound to make.
  - `view.rs`: the content of the screen (title, rows, confirmation prompt,
    centered prompt area).
  - `text.rs`: decimal numbers and joins for the status line.
  - `laws.rs`: properties that hold across operations.
- `app/main.rs` runs the terminal: it opens the repository, draws with ratatui
  on stderr, reads keys with crossterm, runs `git worktree remove`, and prints
  the worktree to change into on stdout.
- `tests/` exercises the library against an in-memory git and against real
  throwaway repositories.
