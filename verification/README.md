# snarkos

The decisions of a node, as a verified library.

- `block`, `block_locators`, `locator_reader`: block hashes, headers and blocks, and
  block locators with their serialized form.
- `message`, `peers`, `coordinator`, `coordinated_peer`, `coordinator_server`: the
  coordinator of a network, the handlers of its peers and its listener.
- `text`, `json`, `rpc`: the RPC endpoint, from the body of a request to the bytes of its answer.
- `locator_laws`, `coordinator_laws`, `rpc_laws`: what holds across functions.

The library performs no input or output. `app/` holds the sockets, channels, timers
and the HTTP server, and turns the ledger's own types into the plain values that the
library works on.

`Cargo.toml` names `aleo-std` only to switch on two of its features, which `snarkvm`
needs to build; no file uses it.
