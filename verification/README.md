# aenv

The decisions of a sandbox server, verified with Verus.

`src/` is the library. It takes plain values and gives plain values back; every
function in it is proved to meet the contract that stands above its body, but for
the few that call outside code. The contracts of these are believed:

- `text`: `String::push` of the standard library.
- `fs_path`: `decode_bytes` (`std::str::from_utf8`) and `decode_bytes_lossy`
  (`String::from_utf8_lossy`).
- `config::normalize`: `quoted` (how `Debug` writes a `str`).
- `config::resolve`: `parse_version` (`semver::Version::parse`).
- `oci`: `uuid_text` (`uuid::Uuid::from_u128` and how it is displayed).
- `daemon::tables`: the functions `records_*`, `shared_*` and `index_*`
  (`dashmap::DashMap`).

- `text`, `fs_path`, `path_laws`: text and Unix paths, by characters and bytes.
- `config`: the configuration, how its paths are resolved, which values are
  acceptable, and where the dependencies are.
- `manifest`, `setup`: which dependencies are set up, where they come from, and
  how they take the place of those before.
- `oci`, `conversion`: how a tar layer becomes a sealed overlaybd layer.
- `daemon`: which block devices exist, who holds them, and what clients are
  answered.

What a function promises over several calls stands in public proof functions
whose names begin with `law_`.

`app/` is the code around the library: the configuration file and the
environment, downloads, programs, and the control socket of the daemon. Work
that alternates between the outside and a decision is a machine in the library:
it names the next action, `app/` performs it and reports what happened.

`tests/` runs the library on concrete values.
