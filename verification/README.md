# yt_mcp

An MCP server that lets a language model work with YouTrack: issues,
comments, the knowledge base, attachments, commands and users.

The crate is split in two:

- `src/` is the library, verified with Verus. It holds the decisions the
  server makes around its calls to YouTrack: the field lists and paging of
  requests, the local search and paging over articles and users, project
  resolution and its cache, data-URI stripping and base64 decoding under a
  size limit, the https-only rule for download urls and the size checks of a
  streaming download, the read plan for attachments, the access checks of the
  HTTP gate and of the per-user token header, the texts shown to the model,
  and the reference documents served as resources. Calls into `base64`,
  `url`, `subtle` and a few functions of `std` stand behind small trusted
  wrappers whose contracts say what those crates document.
- `app/` is the program around it: configuration from the environment, the
  HTTP client and the MCP transport, the tool router, and the async loops that
  perform the I/O the library decides on.

`tests/` exercises the library on concrete values.

`app/` is written against `yt-rs`, the YouTrack REST client the server
talks to YouTrack through. That crate is not published on the crates.io
registry, so it is not listed in `Cargo.toml` and `app/` does not build
here; the library and its tests do not depend on it.
