# lnxdrive

The decision logic of a Files-on-Demand OneDrive client for Linux, with its
behaviour stated in `requires` / `ensures` contracts and proved by Verus.

- `src/` is the verified library: the inode table of the FUSE filesystem and
  the rules of each filesystem operation, placeholder population and path
  building, hydration (download) and dehydration (space reclaim) decisions,
  Microsoft Graph delta parsing and upload chunking, adaptive rate limiting,
  `Retry-After` parsing, and the daemon state behind the D-Bus interfaces.
  `src/laws.rs` states the properties that span several operations.
- `app/` is the runtime around it: the `fuser::Filesystem` callbacks, the
  zbus interfaces, the HTTP calls to Graph, the background download and
  sweep tasks, the token bucket's clock arithmetic and the scheduler loop.
  It hands the library plain values and acts on its answers.
- `tests/` runs the library on concrete values.
