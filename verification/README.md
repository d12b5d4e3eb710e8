# webserver

A ticket service: users log in through an OpenID Connect provider, and file
tickets from a Matrix room with a `!ticket` command.

- `src/` is the library, verified with Verus: the `!ticket` command grammar
  and its parser, bounded strings, the account and ticket models, the
  decisions of the login, request-authentication, Matrix connection and
  ticket-request flows (as step functions from state and event to next state
  and action), configuration checks and error messages.
- `app/` is the program around it: the HTTP server, database, sessions, the
  OpenID Connect and Matrix clients, and the derive macro for uuid wrappers.
  It performs each action the library decides on and hands back the outcome.
- `tests/` runs the library on concrete values, and compares the `!ticket`
  parser with the `regex` crate.
