# bupstash_protocol

The wire format of the bupstash client/server protocol.

Every packet is a five-byte header (the body size as a little-endian 32-bit
number, then the packet kind) followed by the body.

- `src/` is the verified library: packet kinds, header encoding, writing
  packets to a byte stream and reading them back from one, with the size and
  kind checks a reader makes. Message bodies travel in their serialized form.
- `app/` runs the protocol over `std::io` streams and holds the serializable
  message types, which turn packet bodies into values and back.
- `tests/` exercises the library on concrete packets.
