# cput

The library behind `cput`, a tool that sends UDP traffic between two hosts,
counts the packets lost on the way and measures the TCP round-trip time
between them, verified with Verus.

- `src/args`: the command-line values and how they set up the client, the
  server and the statistics collector; `src/args/number.rs` parses the
  numeric options.
- `src/stats`: the statistics collector: its running totals, the
  round-trip-time figures, the decisions of its event loop, and the
  fixed-size frames that carry reports over TCP.
- `src/udp`: the settings of the UDP sender and receiver, the pacing of the
  sending threads and the shared send counter.
- `app/`: the program: command-line reading, sockets, threads, channels,
  JSON and terminal output.
