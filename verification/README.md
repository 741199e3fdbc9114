# gtoolkit_vm

The logic of the GToolkit virtual machine tooling, specified and proved
with Verus.

- `src/bindings`: the interpreter side. Named primitives and the export
  table, interpreter parameters and configuration, object pointers, the
  decisions the primitives take on what the interpreter answers, and the
  marshalling of foreign-call arguments and return values with the errors
  they raise.
- `src/builder`: the bundle builder. Targets and third-party libraries by
  name, build options and their defaults (both forms), where library
  sources come from (including the steps that make a git checkout ready),
  how CMake, Rust, OpenSSL, pixman and cairo libraries are configured, the
  patches applied to cairo's Windows makefiles, the layout and
  descriptions of Linux, macOS and Windows bundles, and the mustache
  templates of their `Info.plist`, resource file and manifest.
- `src/client`: the client runtime. Worker-thread modes, finding the image,
  the application's working directory and start-up values, the loggers, the
  event-loop and message-routing decisions, the values the logger
  primitives answer, and the version text read from the JSON build
  information.
- `src/text.rs`, `src/paths.rs`, `src/words.rs`: text, `/`-separated paths
  and white space, each with the meaning of the std operation it stands
  for.
- `app/`: the builder program. It reads the command line, runs git, cmake,
  make and cargo, and writes the bundle, asking the library for every
  decision.
