# rust_live

Small network services and tools whose logic is verified with Verus.

- `src/kv`: the messages of a key-value service and the decisions of its
  server (which store operation a request asks for, which answer an
  operation's outcome gives), and the text the client reads out of a reply.
- `src/minigrep.rs`: the lines of a text that contain a query, and the
  program's configuration.
- `src/pow.rs`: a proof-of-work engine over BLAKE3; `src/pow/server.rs`
  holds the decisions of the gRPC service in front of it, and
  `src/pow/client.rs` the hexadecimal form in which the client shows a
  sealed block.
- `app/`: the programs (TCP and gRPC servers and clients, the search
  command, a JavaScript runtime on V8), which do the I/O and call the
  library.  Run it with the program's name as first argument.
