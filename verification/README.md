# flightcore_ng_core

A Northstar (Titanfall 2) install manager. The decisions it makes are a
library verified with Verus; the command-line program around it performs the
downloads, file copies, process starts and network requests that the library
asks for.

## Layout

- `src/` — the verified library:
  - `bootstrap` — the step function that brings a profile's Northstar install
    up to date (which version to check, fetch, download, build or link);
  - `installed` — whether a version counts as installed in a profile;
  - `launch`, `wine` — how the game is started and with which arguments and
    environment;
  - `releases`, `revs` — choosing release assets, reading pull-request and
    repository URLs, and the Nix/git arguments of a build from commits;
  - `evaluate`, `nix` — reading the launcher's configuration from evaluated
    Nix values;
  - `sources`, `flake`, `flake_hash` — sources a profile draws from, where
    they are stored, and the bytes a Northstar build's store name is hashed
    from;
  - `backup`, `paths`, `text`, `decimal` — backups, paths and the text and
    number helpers the rest is built on;
  - `settings`, `commands` — the configuration types and the decisions of
    the command line;
  - `window`, `screens` — how the window's launch and profiles screens answer
    their messages, and the texts they show.
- `tests/` — tests of the library on concrete values.
- `app/` — the command-line program.

## Target of the store names

A Northstar build is stored under the `DefaultHasher` hash of its flake
references. `flake_hash` feeds the hasher the bytes that std's `Hash` feeds on
a 64-bit little-endian Unix target (strings end with `0xff`, `Option` tags and
lengths are 8-byte words, paths are hashed by their `/`-separated
components). On other targets (32-bit or big-endian machines, and Windows for
references to local paths) the names differ from those std's `Hash` would
give there.
