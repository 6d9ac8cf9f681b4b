# libsolv

Building blocks of a Rust binding to libsolv, the package dependency solver,
written in Verus and verified.

- `src/queue.rs` — the id queue (`push`, `pop`, `shift`, `unshift`,
  `pushunique`, `insert*`, `delete*`, `truncate`), its model as a sequence of
  ids, and the laws that tie the operations together.
- `src/chksum.rs` — MD5, SHA-1 and SHA-256 checksums over byte streams. The
  digests come from the `md-5`, `sha1` and `sha2` crates: they compute the
  same standard digests as libsolv's C checksum functions, which verified
  code cannot call.
- `src/strpool.rs` — the string pool: strings interned once, named by ids.

The queue and the string pool are libsolv's C structures written anew in
Verus, since their C functions cannot be called from verified code; the
string pool looks strings up by a linear scan where libsolv uses a hash table.

- `src/sys.rs` — the digest contexts and digest sizes.
- `src/repo.rs` — load-callback references, data addressing ids, the
  metadata search decision and the file-provides check.
- `src/repos.rs` — the repositories of a dependency chase, where they live,
  and the cookies of their metadata.
- `app/` — file reading, `fstat`, the command line, and the pool, repository,
  solver and transaction handles, which go through libsolv's C library.
