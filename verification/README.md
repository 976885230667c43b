# git-release

Bumps the version in a project's manifest (`Cargo.toml` or `package.json`),
refreshes the lockfile, commits the change and creates an annotated tag
`vX.Y.Z` with the message `Release: vX.Y.Z`, optionally signed with gpg and
pushed to the upstream remote.

The library under `src/` is verified with Verus:

- `text` — decimal rendering and `u32` parsing of digit strings, splitting,
  substring search, ASCII case folding.
- `ecosystem::next_version` — version arithmetic (`get_next_version`) and its
  laws (read-back of the rendered version, semantic-version bumps, strict
  increase).
- `ecosystem::types` — release kinds, ecosystem detection, command outcomes.
- `ecosystem::recipes` — the Cargo, npm and Composer recipes; the manifests
  are read and edited through `toml_edit` and `serde_json`
  (`toml_document`, `json_document`); `version_literal` locates the top-level
  version string of `package.json` so that a bump rewrites only those characters.
- `git`, `signing`, `credentials` — texts of signatures, tags and messages;
  the signing command and the meaning of its output; which credential to
  offer a remote next.
- `errors` — the error type and its views.

`app/` holds the command line, the file and process I/O and the `git2`
repository operations, which hand plain values to the library.
