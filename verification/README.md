# thunder_net

The peer-to-peer side of a sidechain node, and the command line client of the node.

`src/` is the library. It decides, and Verus proves what it decides:

- `net/` holds the active peers and their queues (`peers`, `channel`, `peer_message`) and what
  relates them to the known ones (`known`), finds
  the seed nodes (`seed`), opens the peer database and dials the peers that it knows
  (`startup`), dials and accepts connections (`connect`, `accept`), and dials the known peers
  again once all connections are lost (`dial`, `redial`).
- `cli/` turns a command into a remote call and its reply into output (`command`, `schema`),
  and sets up the session in which the call is made (`run`, `request`, `rpc_url`).

`app/` performs what the library decides: it owns the QUIC endpoint, the database
environment, the tasks and the HTTP client.

`tests/` runs the library on concrete values.
