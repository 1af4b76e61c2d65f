# apvm

The Atlaspack version manager: installs versions of Atlaspack (npm releases,
git branches or commits, local sources), makes one of them the default,
and links a version into a project's `node_modules`.

## Layout

- `src/` is the verified library (Verus). Each module states its behaviour
  in `requires` / `ensures` contracts over mathematical models (`Seq<char>`
  for text, spec enums for the library's types):
  - `name`: the URL-safe base64 names of version directories, with the
    round-trip and injectivity laws;
  - `origin`: `origin:version` specifiers and how a version is chosen;
  - `apvmrc`: the search for `.apvmrc` and `package.json#atlaspack.version`,
    as a state machine that asks for one file at a time;
  - `config`, `package`, `active`: the directory layout under `$APVM_DIR`
    and the descriptor of an installed version;
  - `install`, `use_version`, `npm_link`, `session`, `list`, `route`: what
    each command computes before it touches the file system or the network;
  - `text`, `path`, `json`: text helpers, and the calls into `std::path`
    and the `json` crate behind trusted wrappers.
- `app/` is the command line around it: argument parsing, file system,
  network and process work.
- `tests/` exercises the library on concrete values.
