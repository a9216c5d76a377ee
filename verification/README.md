# DropLink core

DropLink sends files between computers on the same local network: devices
find each other over mDNS, the sender announces a file on a TCP connection,
the receiving user accepts or refuses it, and an accepted file is streamed
in 64 KiB chunks and checked with SHA-256.

`src/` is the verified library (Verus):

- `text` — string building, decimal, lower-case hex and dotted IPv4 text.
- `filename` — safe names for received files, numbered names for taken
  ones, the receive folder.
- `checksum` — incremental SHA-256 and its hex text.
- `protocol` — device descriptions, control messages, line framing.
- `transfer` — the receiving and sending sides as steps from state and
  event to next state and action, with the protocol's laws.
- `discovery` — the mDNS registration, the reading of browser reports, the
  port search.
- `devices` — the list of visible devices.
- `pending` — the transfers waiting for the user's decision.

`app/` is the desktop program around it: the Tauri window and commands,
the mDNS daemon, sockets, files and the JSON encoding of messages.
