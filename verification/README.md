# Factotum

The authentication service of the system: it keeps identities, permission
rules and tickets, and answers requests about them.

- `src/ticket.rs`: the format of tickets.
- `src/manager.rs`: identities, rules and tickets, and the clock they live by.
- `src/protocol.rs`: the objects and methods of the protocol.
- `src/server.rs`: what each request does, and the steps of the message loop.
- `src/manager_laws.rs`, `src/server_laws.rs`: what holds across calls.
- `src/table.rs`: the table that rules and tickets are kept in.
- `src/layout.rs`: the capability slots in use.
- `app/`: the process around the library. It needs the system's `glenda`
  crate, which is not published.

Everything in `src/` is verified with Verus, with no trusted declaration of
its own. Two values in `src/protocol.rs` stand for values of `glenda` and must
agree with them: the effective user of the default identity, and the null
capability pointer. The process tests both when it starts.
