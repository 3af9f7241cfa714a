# ohcrab

Corrects the previous console command. The program runs the failed command
again, collects what it printed, asks every rule whether it recognises the
failure, and offers the corrections, best first.

The library (`src/`) is verified with Verus:

- `text` — strings as sequences of characters: search, replace, split, join,
  trim, byte offsets.
- `pattern` — regular expressions (the `regex` crate), behind trusted
  wrappers whose results are named.
- `utils` — replacing a command's argument, reading suggestions from a
  program's output, and ranking close matches (Ratcliff/Obershelp
  similarity), with the laws of the ranking.
- `cli` — the command that failed, the corrected commands, and the argument
  list for the parser.
- `shell` — how each shell joins commands, and the shell function that calls
  the program.
- `rules` — one module per rule, each with a specification of when it
  matches and what it proposes; `rules::get_corrected_commands` gathers the
  proposals and `rules::organize` orders them, with the laws of both.

The program (`app/`) reads the arguments, runs commands, looks at the file
system and git, shows the menu, and performs the side effects of the chosen
correction.

Some public types take another shape than a plain Rust program would give
them, so that the verifier can follow them: the shell is an enum (`Shell`)
whose methods say how each shell joins commands, where a trait object could
stand; and a rule names what it does by a `RuleKind`, and its side effect by
a `SideEffect`, where function pointers could stand. `Rule::is_match`,
`Rule::proposals` and `rules::get_corrected_commands` dispatch on them.
Answers that only the surroundings can give (whether a path is a directory,
whether `which` finds a program, the current directory, the branches that git
lists) reach the dispatch in a `Facts` value that the program fills in.
