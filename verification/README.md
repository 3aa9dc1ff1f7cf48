# Aether launcher core

A Minecraft launcher whose decisions are proved with Verus.

- `src/` — the verified library: Mojang version metadata and its OS/arch
  rules (`minecraft`), instance records and their life cycle (`instance`),
  the Vanilla installer's download plan and install outcomes (`install`),
  download checks and progress (`download`), the launch plan — paths,
  classpath, arguments, natives (`launch`), Java runtime selection and
  planning (`runtime`), and the string, path and association-list helpers
  they rest on (`text`, `platform`, `assoc`).
- `tests/` — tests of the library on concrete values.
- `app/` — the desktop shell: Tauri commands, HTTP, file system and
  process spawning, calling the library for every decision (the library
  also reads the natives jars; the shell writes out what it picks).

Paths are composed by the library as `Path::join` composes them on the
platform at hand: with its separator (`\` on Windows, `/` elsewhere), and on
Windows with drive, share, device and verbatim prefixes taken into account.
The running platform is passed in from `std::env::consts`.
