# bevy_studio

The verified core of Bevy Studio: a web backend where users sign in with GitHub, keep
game projects and their files, and queue builds; and a builder that downloads a project's
files from object storage and compiles it.

- `src/` is the library, verified with Verus: session tokens (`auth`), the sign-in flow
  (`auth::routes`), GitHub replies (`github`), who may see which project and file
  (`projects`, `files`), what the backend asks of its databases (`store`, the `db` modules,
  `jobs`, `users`), claiming queued build jobs (`build::db`), and where the builder puts a
  downloaded file (`builder`, `text`).
- `app/` is the server and the builder program around it: HTTP, database and storage I/O.
  `app/game.rs` is the sample Bevy game that the builder compiles; it is a program of its own.
- `tests/` runs the library on concrete values.
