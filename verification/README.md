# ptyx

A pseudo-terminal runtime. Programs spawn children on terminals of their own, write to
them, and receive their output, their exit and the end of their cleanup as events. On Unix
a broker process owns the children, so the host's own signal handling is left alone; on
Windows each child has a pseudo console.

`src/` is the library: the broker's protocol and its two ends, the sessions with their
bounded queues, the reactors that drive them, the event channels, and the interfaces for
Rust, C and Dart callers. All of it is state machines and codecs that take plain values and
return plain values, and Verus proves each against its contract.

`app/` performs what the library asks for: sockets, terminals, processes, consoles, threads
and time.

`tests/` runs the library on concrete values.

Values cross between the two in one direction at a time. A function that needs the
operating system returns what is to be done; a function whose name starts with `after_`
takes what came of it.
