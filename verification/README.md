# absquic

An abstraction over quic transports, with backends for quinn-proto and quiche
and sockets of tokio and quinn-udp.

`src/` is the library. It is written in Verus: every function states in its
`ensures` what it does, and is proved to do it. It holds no socket, timer or
task. A driver is a state machine: it hands out the next action, and is stepped
on with what came of it. What a step does is a `spec fn next` of the driver, and
what holds over many steps is a public `proof fn` whose name begins with `law_`.
Where the steps of a turn are bounded and none of them is a matter of sockets or
timers, the library makes the whole turn: its `poll` states which steps were
made.

| module | what it holds |
| --- | --- |
| `stream` | streams with a bound on the bytes in flight, buffers of bytes; `stream::pair` holds the laws of their two ends together |
| `quinn` | the drivers of endpoints, connections and streams of quinn-proto |
| `quiche` | the tasks of endpoints and connections of quiche, with http3 |
| `quinn_udp`, `udp`, `backend` | sockets and packets |
| `driver`, `out_chan` | an endpoint and its connections in one task |
| `runtime`, `rt`, `util`, `task`, `tokio_runtime` | channels, futures, semaphores |
| `con`, `connection`, `endpoint`, `error` | messages, commands, events, errors |

Calls into other crates stand in small functions marked `external_body`, each
with a comment that says what is taken for granted of the call. They are in
`buf`, `quinn::proto`, `quinn::stream_io`, `quinn_udp`, `stream::backend`,
`task`, `backend` and `error`. Where nothing can be promised of a result, a
`closed spec fn` beside the call is the evidence that it was made and gave that
result; contracts speak of that. Where the call changes something, the evidence
is about the mutable reference that was handed to it: what is behind it at first
is what the call found, its final value is what the call left, and a contract
ties both to what its own function found and left. A turn of many calls is a
sequence of steps that are tied to each other in the same way.

`tests/` runs the library, and the crates under it. `app/` is ordinary Rust: it
binds the library to sockets, timers and tasks.
