# registry_auth

Authentication for a container registry and for the command line client that logs in
to it.

- `src/` is the verified library. Each flow that waits for somebody else (a database, a
  password check, GitHub, the Next program, a browser) is a state machine: the state says
  what is awaited, and `step` takes the answer to the next state. What the flows guarantee
  as a whole is proved in functions named `law_...`.
- `tests/` runs the library on concrete values.
- `app/` is the HTTP server and the login command around the library. It takes the user
  store, the token codec, the password functions and the client's configuration as
  traits.
