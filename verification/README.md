# concord

The logic of a terminal Discord client, written in Verus: the gateway
protocol's decisions (frames, heartbeats, reconnects, subscriptions), the
payloads it sends, the parsers for what Discord sends back, the client state
(channels, members, roles, cached messages, pins, reactions, polls), the
configuration and theme readers, the login flow and the browser fingerprint
headers. Verus proves each public function against its contract. Where a
result rests on chance or on the machine (random ids, the system locale and
time zone, reconnect jitter), the contract states what holds of every
outcome, and a separate verified function that takes the outside value as an
argument states the rest exactly.

The gateway event parser covers the dispatches whose payload formats this
library models. READY, READY_SUPPLEMENTAL, GUILD_CREATE, presence, typing,
voice, relationship and member-list dispatches give no event here.

- `src/` is the verified library. Calls into `serde_json`, `toml`, `base64`,
  `uuid`, `rand`, `sys-locale`, `iana-time-zone` and `reqwest`'s header type
  go through small trusted wrappers whose contracts say what those crates do.
- `app/` holds the program around it: file and process I/O, serde copies of
  the configuration types, and the loop that drives the login flow.
- `tests/` runs the library on concrete inputs.
