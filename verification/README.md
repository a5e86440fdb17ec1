# git-loom, verified core

git-loom weaves several feature branches into one integration branch. This
crate holds the decisions of its commands as Verus-verified Rust: every git
invocation is built as a value with a contract, every answer git gives is
read by a verified parser, and the multi-step operations are state machines
that decide the next step from the last answer: putting staged changes back
after a rebase, carrying a rebase past stops it can account for, creating an
integration branch, undoing a failed fold, folding files into a commit
(amends of HEAD checked when arguments are forwarded), squashing a fixup,
folding a commit into another, moving commits to a branch or next to a
commit, uncommitting a commit, a file or picked hunks, moving a file or
picked hunks between commits, routing `fold -p`, and finishing a fold after
a paused rebase.

- `src/` — the verified library: `git` and `git_commands` (commands and
  their parsers), `fold` (argument routing, rollback, move order),
  `fold_steps` and `move_steps` (the fold state machines), `patch_route`
  (where `fold -p` goes), `resolve` (what an argument names), `init`, `graph` (the sections of
  the status graph), `render` (the styled lines of the status graph),
  `repo` (what the status graph reads from the repository), `cli` and
  `text`.
- `app/` — the program around it: argument parsing, running git, reading
  the repository with git2, prompts and colored output.
- `tests/` — the tests, run against the compiled library.

## What `app/` runs, and what it does not

The program offers `init` and the internal todo writer used as
`GIT_SEQUENCE_EDITOR`. The other commands, `status` and `fold` among them,
rest on parts of git-loom that this crate does not have: the branch weave
that plans and runs rebases, the operation state file behind `continue` and
`abort`, the staging helpers that set staged work aside, the short-ID
allocator and the interactive hunk picker. Their decisions are verified in
`src/` all the same:

- `fold_steps` takes each such part as an action it names (`EditWeave`,
  `RebaseToEdit`, `SaveOtherStaged`, `Describe`, ...) and the answer as an
  event, so a caller that has those parts can drive the fold machines step
  by step, and `patch_route` asks for each argument to be resolved in turn;
- `resolve` decides what an argument names once git has said whether it is
  a branch or a commit, given the short IDs the allocator handed out;
- `render::render_sections` turns the sections `graph::build_sections`
  builds and a table of short IDs into the exact styled lines of the status
  graph.

`app/drivers.rs` holds the loops that run the rollback, restage and
rebase-carry machines against git; they are there for the commands above and
nothing in the program calls them yet. For the same reason the program has
no guard against running a command while an operation is paused (it needs
the state file) and no `--patch` refusal in agent mode (none of its commands
takes `--patch`); `cli::paused_state_message` and `cli::patch_in_agent_mode`
are the verified halves of both.
