# devpack-for-rust

An install wizard for a Rust development environment: the user picks a rust
channel, an IDE and command-line tools from a menu, and the wizard installs
them with rustup, cargo and snap, and writes shell aliases.

Layout:

- `src/` is the verified library (Verus):
  - `shell_type.rs`: shell families, where each keeps its aliases and in what
    syntax, and the recognition of the user's shell from the command lines of
    this process's ancestors (one move at a time; the caller reads `/proc`).
  - `recipe.rs`: install recipes and their steps.
  - `selection_tree.rs`: the menu, with its exact content as a specification.
  - `wizard.rs`: the protocol that carries out one install step as a sequence
    of actions (run or show a command, find a home directory, open and write
    the alias file) and the answers the caller reports.
  - `install_plan.rs`: the order in which the picked recipes' steps run, and
    what a failure does to the rest.
  - `cli.rs`: the command-line settings and the startup decisions.
- `app/` is the program: argument parsing, the terminal menu, and the outside
  work (processes, commands, users, files) that the library's protocols ask for.
- `tests/` exercise the library on concrete values.
