# oxide_mc

A small Minecraft launcher library: it installs a game version (vanilla or
Fabric), a portable Java runtime and an optional modpack, and starts the game.

- `src/` is the verified library: which libraries a version uses, where every
  file is stored and fetched from, the classpath, the Java build for a
  version, the order of an installation (which manifests are fetched, and
  when), the saved profile, reading zip and gzip-compressed tar archives and
  planning where each entry is unpacked, and the command line that starts the
  game. Paths are text with '/' between components; the operating system is
  passed as a `Platform`. Reading archives goes through the `zip`, `tar` and
  `flate2` crates, and the data folder through `directories`; what those
  calls give is stated in their contracts, not proved.
- `app/` does the I/O around it: HTTP downloads, writing the planned files,
  JSON, the installation loop, and the Java process.
- `tests/` runs the library on concrete values.
