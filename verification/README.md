# rmbtd

A server for network measurements with the RMBT protocol. Clients talk to it over TCP or TLS,
directly or over a WebSocket.

## Layout

`src/` is the verified library: the protocol and the rules of the server, with contracts that
Verus proves:

* `config/`: constants, settings, the secret key file, the configuration file, the command
  line;
* `protocol/token.rs`: authentication tokens of both versions, `token_laws.rs` what holds of
  them, `trace.rs` the debug trace of their verification;
* `protocol/greeting.rs`, `protocol/commands.rs`: the two phases of a session,
  `command_laws.rs` and `upload_laws.rs` what holds of the second, `measure.rs` what is measured
  of it;
* `stream/`: the HTTP upgrade, and lines and data on raw connections and WebSockets;
* `server/`: startup, accept loop, workers, the life of a connection, names of clients;
* `events.rs`, `json.rs`: structured events as RFC 5424 frames with a JSON body;
* `tls.rs`: the identity of a TLS server from PEM files;
* `crypto.rs`, `clock.rs`, `net.rs`, `number.rs`, `text.rs`, `version.rs`: what the rest stands
  on.

The phases, the startup, the accept loop, the workers and the connections are state machines:
a step takes what came of the last action and yields the next action. `app/` performs the
actions: sockets, threads, files, signals and the log. It also computes the rates in events,
which are floating-point numbers.

What other crates compute (message authentication, digests, base64, PEM sections, timestamps,
log levels, random bytes) stands behind small functions marked `external_body`, whose contracts
say what is relied on.

## Usage

```text
rmbtd -L 0.0.0.0:443 -c cert.pem -k key.pem -S secret.key -log info
```

`rmbtd --help` lists the options. Settings can also stand in `rmbtd.conf` in the working
directory; the command line goes on top of them:

```text
v2_only = true
syslog = 10.0.0.1:514
log_full_ip = true
logger = debug
check_token = true
```
