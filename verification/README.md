# bevy_replicon message plugins

The verified core of the plugins that carry remote messages and events between a client
and a server.

- `src/registry.rs`: the registered messages by the ids of their resources.
- `src/systems.rs`: the systems as values (schedule, run conditions, ordering, set, query
  parameters) and the steps each takes for the registered messages.
- `src/client.rs`, `src/server.rs`: which systems each plugin adds and the steps of each.
- `src/shared.rs`: the authorization method and what the shared plugin sets up.
- `src/laws.rs`: properties across these functions, proved.
- `app/`: the bevy plugins that build and run those systems in a world.
