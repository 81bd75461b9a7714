# mist

A server for shared City of Mist character sheets, with its rules proved
by Verus.

- `src/` is the verified library: the sheet model (themes, tags,
  characters, campaigns, users) and its builders; the stored records and
  the conversions to and from them; sign-up and sign-in (Argon2 through
  the `argon2` crate); the answers to refused requests; the cache of
  loaded characters; the websocket rooms and what each websocket event
  does, and the steps of changing a stored character; the cards and
  the dice agent of the browser client. Public proof functions
  state the laws that tie these together, such as that a sheet stored
  and read back is the same sheet, or that a message is never echoed to
  the socket that sent it.
- `app/` is the program around it: the warp routes, the websocket loop,
  the sea-orm queries and sessions, and the JSON forms of the model.
- `tests/` runs the library on concrete values.
