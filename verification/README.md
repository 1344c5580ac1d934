# lychee_lib

The core of a link checker, written in Verus. The library's own functions
carry contracts that Verus proves; calls into outside crates and into the
standard library stand behind trusted wrappers, whose contracts are believed
as the outside source and documentation state them, not proved.

The library targets Unix-like systems: the contracts that speak of file
paths (the `file:` URLs made of paths and back, and making a path absolute)
state the behaviour those calls have there.

- `src/` is the verified library: status-code ranges and selectors, URL and
  link resolution against bases and root directories, requests made of the
  links found in a document, input sources, file types, fragment and
  text-fragment checks, the classification and explanation of failed
  requests, and the record of redirects and remapped URLs.
  Calls into the `url`, `percent-encoding`, `regex`, `fancy-regex`,
  `html5gum`, `email_address`, `path-clean`, `http` and `glob` crates stand
  behind small trusted wrappers whose contracts say what those crates
  promise.
- `app/` is ordinary Rust around the library: reading files and standard
  input, walking directories (with `ignore` and `walkdir`) and expanding
  glob patterns (with `glob` and `shellexpand`), running preprocessor
  commands, the global store of hints,
  and turning errors of the standard library into the plain values that the
  library explains.
- `tests/` runs the library on concrete values.
