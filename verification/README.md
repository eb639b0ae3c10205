# dns-monitor

Checks a fleet of public resolvers and reports what it finds to uptime-kuma,
Gatus, or both. Each resolver gets three checks a round: a query over DNS over
HTTPS, a query over DNS over TLS, and the days left on its certificate.

`src/` is the library, verified with Verus. It holds every decision and talks to
nobody: what comes off the network, the clock and the environment is handed to
it as plain values, and what is to be done is handed back.

- `config`: the fleet, the keys of push tokens, the configured targets
- `check`: outcomes, messages, the choice of an address; `check::dns` for queries
  and what makes a response count; `check::doh` and `check::dot` for the two
  exchanges, step by step; `check::cert` for the days that are left
- `confirm`: which failures are repeated, and what is reported of a node
- `push`: the requests that tell each target about an outcome
- `health`: whether the check loop is still making progress
- `text`, `time`: numbers, causes and lengths of time as an operator reads them

`app/` is the program around it: arguments, sockets, TLS, HTTP and the health
server.

A ping is counted in tenths, of a millisecond or of a day, which is the
precision it is reported with.
