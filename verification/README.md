# breach

The verified core of a small actor-based game server whose browser pages
are live views.

- `src/` is the library, verified with Verus: client and view identities,
  the messages that travel between the services, the names of the actor
  groups they are sent to, the announcement a new connection makes, the
  welcome service's greeting, what the prompt component asks the page to do
  after an event, and the configuration defaults. Whether the actor runtime
  accepts a message is its own affair and is not stated.
  `src/actors.rs` holds the declarations of the actor runtime's types and the
  two calls the library makes into it.
- `app/` is the server program around it: configuration loading, the actor
  groups of the game, welcome and web services, and the HTTP server with its
  live view components.
- `tests/` runs the library on concrete values.
