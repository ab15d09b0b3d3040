# packet-stream

The [packet-stream protocol](https://github.com/ssbc/packet-stream): requests and duplexes,
multiplexed over a single pair of a reader and a writer.

- `src/` is the library, verified with Verus. It holds the byte format (`wire`), the state
  machines that read and write packets (`codec`), the ids of what each side opens (`ids`), and
  the two multiplexers: `mux`, on the packets of the `packet_stream_codec` crate, and `ps`, on
  those of `codec`. The library makes no I/O call itself. A state machine says which call is due,
  and takes its outcome.
- `app/` makes the I/O calls. It offers the futures, sinks and streams of `futures` and
  `tokio_io` on top of the library.
- `tests/` holds the tests.

What holds of the library as a whole is stated in the `law_` functions: in `wire` for the byte
format, in `codec::laws` for any number of reads and writes of any size, in `ids` for the ids,
and in `mux::laws` and `ps::laws` for the two sides of a packet-stream.
