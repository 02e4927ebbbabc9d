# fuzgit

`gz` is git with a fuzzy finder: branches, commits, changed files, remotes and pull requests are
picked from a list instead of typed.

The library decides and the program acts. Everything that can go wrong quietly is in the library
and is proved: which candidates a list shows, what a picked key stands for, what git is called
with, what is asked before something is lost, what counts as done.

## Layout

- `src/` is the library. Nothing in it runs git or touches a file.
  - `cli` defines the command line and reads what was parsed.
  - `commands` turns a command line into a request and holds what all commands share: columns,
    headers, highlights. Below it stands one module for each command, each with its candidate
    list, its selection and its plan.
  - `commands/fetch/phases` and `commands/pull` are state machines: they say what comes next and
    are told how it went.
  - `git` holds what is known of a repository, and reads what `git status` prints.
  - `color` colours what git reports, without changing a byte of it.
  - `gh` reads the records that `gh` writes.
  - `i18n` holds every message in Japanese and in English.
  - `selection` goes from picked keys back to candidates.
  - `text` holds what the rest needs of texts.
- `app/` is the program: the parser, the finder, the repository, the processes.
- `tests/` runs the library.

## What is proved

Each function states what it returns, and each refusal states when it comes. The functions whose
names begin with `law_` state what holds of several of them together: that a selection comes back
in the order of the list and that an unknown key is refused, that colours are all that painting
adds, that no update is forced, that a branch whose remote could not be fetched is not integrated,
that every repository is fetched and told once whatever the order in which runs end, that a
repository that did not open is told before anything else, that what is defined on the command
line is always read.

Five calls are believed rather than proved: `String::push`, `String::from_utf8_lossy`,
`UnicodeWidthStr::width`, `ObjectId::from_hex` and `ByteSlice::to_str_lossy`. What is claimed of
each stands above its wrapper.
