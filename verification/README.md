# fractal

The decisions behind two views of a Matrix client: logging in to an account, and upgrading a room to
another version. `src/` is a library whose functions are verified with Verus; `app/` runs them
against the Matrix SDK and the widgets of the application.

- `login` holds the pages of the login stack, the state of a login and what to do when it changes,
  the login flows through the homeserver, the client registration data and the page where the
  browser lands after the authorization. `login::laws` states what becomes of the client and the
  session over all of these.
- `room_upgrade` holds the room versions that a homeserver supports, the versions that are offered
  for an upgrade and the dialog that asks for one. `room_upgrade::laws` states that the information
  for an upgrade depends on nothing but what was added to it.
- `numeric` is the order of room versions, `text` the order of strings by code points, and
  `messages` the texts that are shown to the user.

The functions of the library return what to do as values; the controllers in `app/` perform it and
hand back what happened. The traits in `app/host.rs` stand for the widgets, the settings and the
secret storage.

Calls into other crates are made by small functions marked `external_body`, whose comments say what
is taken for granted: the comparison and the sorting of `numeric-sort`, the parsing of `url`, the
server names and the client metadata of `matrix-sdk`, and the decoding of UTF-8.
