# rdma_verbs

Completion queues and queue pairs of RDMA verbs, with the logic verified by
[Verus](https://github.com/verus-lang/verus).

The verified library (`src/`) makes no call into `libibverbs`. An operation is
split at the call: a method computes what the call is handed and returns it as a
request, and a method of the request turns what the call gave back into the
result of the operation. Operations that call more than once (the blocking polls,
the connection of a queue pair) are state machines.

| module     | what it holds                                                  |
|------------|----------------------------------------------------------------|
| `sys`      | constants and error codes of the verbs interface               |
| `ints`     | casts to and from C integers                                   |
| `device`   | device contexts and protection domains                         |
| `wc`       | work completions                                               |
| `cq`       | completion queues                                              |
| `poll`     | single polls                                                   |
| `blocking` | polls that wait                                                |
| `spin`     | the pace of warnings about polls that spin                     |
| `qp`       | queue pairs, their attributes, endpoints and peers             |
| `connect`  | state transitions of queue pairs and their order               |
| `mr`       | memory regions and scatter/gather lists                        |
| `post`     | work requests and lists of them                                |
| `text`     | numbers in messages                                            |

Proof functions named `law_...` state what holds across operations.

`app/` makes the calls, with `rdma-sys`, and gives the operations their usual
signatures.
