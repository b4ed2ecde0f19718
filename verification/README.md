# musicus

The verified core of Musicus, a catalog of classical-music recordings.

- `src/action.rs`: the actions that the database thread performs, each
  with its own answer channel, generic over the record types of the
  catalog, and the errors of a database access.
- `src/worker.rs`: the life cycle of the database thread as a state machine,
  with the laws that it performs exactly the actions received before a stop
  and nothing after it.
- `src/client.rs`: how a client turns what comes back from the channels into
  its result, and the law that an access the stopped thread no longer takes
  or answers fails. That a stopped thread's channels do refuse or drop
  actions rests on `std::sync::mpsc` and `futures_channel::oneshot` and is
  not proved.
- `src/recording.rs`: the title of a track's row on a recording screen; the
  translated fallback title comes from `gettext`, called in `app/`.
- `app/`: the channels, the thread, the awaits and the GTK widgets around it.
