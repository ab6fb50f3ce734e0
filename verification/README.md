# trackerconqueror

A work-unit tracker for scraping the Mod Archive in parallel. A server hands
out numbered units of 1000 module ids to named workers; a miner scrapes each
unit and reports it complete through a short-lived client process whose last
output line it reads back.

- `src/` is the verified library: the report line (`report.rs`, with the
  character helpers in `text.rs`), the server's unit table and its reactions
  (`server.rs`), the client session (`client.rs`), the miner's plan
  (`miner.rs`) and how client and server fit together (`protocol.rs`).
- `app/` is the program: argument handling, sockets (message-io), wire and
  file encodings (bincode, csv), scraping (trackermeta) and printing.
- `tests/` runs the library on concrete cases.
