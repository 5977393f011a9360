# onebox_lifecycle

Monitors the life cycle of the system that an application runs on: requests to shut down, sleep
and wake, and changes of the network.

The library in `src/` is verified with Verus. It holds what is decided and computed:

- `src/lib.rs`: the sentinel, its configuration, and which backend a platform needs
- `src/common/model.rs`: what a channel does, told by the values that go through it
- `src/common/channels.rs`: the channels of `std` and `tokio`, and what is relied on of them
- `src/common/mod.rs`: the events and the two halves of the event channel
- `src/common/shutdown.rs`, `src/common/sleep.rs`: the handles that delay a transition, and the
  side that waits for them
- `src/common/network.rs`: one event for each change of the network
- `src/common/tokio_support.rs`: an event channel for tasks
- `src/windows/`: the window procedure, the message loop, the end of a session, the network
- `src/macos/`: the application delegate, notifications, power messages, the network path

`app/` is ordinary Rust around it: the calls into Windows and macOS, threads and tasks.

A handle in a `ShuttingDown` or `WillHibernate` event holds up the transition until `allow` is
called. Dropping it allows the transition too, and so does the end of the waiting time. On Windows
the system is given a reason for as long as the end of a session is held up.
