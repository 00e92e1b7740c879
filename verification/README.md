# codex-retry

Retry and network-availability decisions for requests that stream model responses, verified
with Verus.

`src/` holds the rules. None of them touches a socket, a timer or a random number: each is a
function on plain values, or a small state machine that is handed what came of its last action
and says what to do next.

- `duration`: spans of time in whole nanoseconds.
- `error`, `protocol`: the failures that the rules look at and the events that users see.
- `network_availability`: probing routes, and waiting until the network is no longer
  unavailable.
- `retry`: which failed requests are tried again, how often, and the backoff between attempts.
- `responses_retry`: counting the retries of a broken response stream, and its messages.
- `stream_retry`: what happens after a response stream broke off, one action at a time.
- `stream_retry_laws`: what holds of that from its beginning to its end.
- `text`: decimal numerals.

`app/` performs the actions: it opens the sockets, sleeps, draws the jitter of a backoff and
writes the log. The jitter is floating point and stays there.
