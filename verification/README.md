# distro_builder

Shared infrastructure for building Linux distribution images (live ISOs,
EROFS root filesystems, raw disk images), written in Verus: every decision the
builder makes is a verified function with a contract, and the file system,
processes and clocks stay at the edge.

## Layout

- `src/` — the verified library.
  - `cli` — products, release arguments, command decoding, distro discovery.
  - `release` — release hooks (variant and compatibility), ISO names, run records.
  - `products` — product layouts, prepared product manifests and EROFS builds.
  - `store` — the content-addressed artifact store: paths, validation,
    restore and prune decisions, garbage collection, SHA-256 names.
  - `tarball` — the entry order, names and headers of `tar.zst` blobs, which
    depend only on the relative paths, kinds, modes and sizes in the tree, not
    on the walk order, on where the tree lies, or on times and owners.
  - `kernel` — kconfig merging, kernel version discovery, build and install plans.
  - `users`, `sshd`, `licenses`, `executor`, `overlay`, `alpine`, `disk`,
    `artifact` — rootfs preparation steps as plans and pure file transforms.
  - `text`, `paths`, `runs`, `clock`, `context` — strings, `std::path`
    semantics on strings, output layout and run ids, timestamps.
- `tests/` — tests of the library on concrete values.
- `app/` — the `distro-builder` command line: argument handling, product
  discovery and dispatch, EROFS builds, the file system side of the artifact
  store (archive writing, hashing, locking), `uuidgen`, the Alpine build
  context's staging directory and the kernel build's make sequence. The other
  plans (overlays, kernel install, disk images, component operations) are the
  library's results for the distro builders that link it; this command line
  does not carry them out.

## Laws

The properties that tie several functions together are public proof
functions named `law_*`, next to the functions they speak of; for example
`users::law_read_after_ensure_user` (a user added by `ensure_user` is read back
with its IDs), `tarball::law_tar_entries_deterministic` and
`tarball::law_tar_entries_location_independent` and
`tarball::law_same_tree_same_records` (archive entries and headers depend
neither on the walk order nor on where the tree lies) and
`kernel::law_kconfig_last_assignment_wins`.
