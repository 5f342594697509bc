# mqtt_common

A small MQTT 3.1.1 client library, verified with Verus.

- `src/package/`: the packet types (`types`), the `Encode` and `Decode`
  traits and the byte-level helpers they share.
- `src/connect.rs`, `src/pubsub.rs`, `src/ping.rs`: the packets, their
  encodings and their decoders.
- `src/utils.rs`: dispatching a received packet to the decoder of its type.
- `src/client.rs`: the client's decisions while it waits for CONNACK,
  PUBACK / PUBREC / PUBCOMP, SUBACK, UNSUBACK and PINGRESP, as state machines
  that take what a read brought and say what to write and whether to wait again.
- `src/report.rs`: the lines printed about each decoded packet.
- `src/input.rs`: parsing the commands typed on the console.
- `src/or_output.rs`: the outcome type of racing seven futures.
- `app/`: the console client itself (tokio networking, console input, printing)
  and a small future combinator demo.
