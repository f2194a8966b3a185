# docusaurus

Docusaurus driven by a site configuration written in Rust.

- `src/` is the verified library: the configuration types and their
  defaults, the JavaScript that the Node addon runs for each command (with
  the escaping that keeps paths inside their string literals), the module
  that hands the configuration to Docusaurus, the upward searches for the
  `docusaurus` executable and the prebuilt addon, the steps of building the
  site's config library, and the mapping from command-line arguments to
  Docusaurus options.
- `app/` is the `docusaurus` command and the Node addon's exports: argument
  parsing, the file system, `cargo`, the dynamic loader, `node`, and the
  JSON form of the configuration.
