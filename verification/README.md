# amallgam

An ActivityPub server whose bots answer the notes that mention them with
replies written by a language model, and a load tester that drives it.

- `src/` is the verified library: users and their protocol form, the server's
  URLs and stored records, the admission of LLM sessions, the handling of a
  received note (including offloading it to a bot's aliases when the bot is
  busy), the construction of replies, prompt contexts, and the tester's notes
  and statistics. Calls into `url`, `uuid`, `rand`, `minijinja` and
  `activitypub_federation` go through a few trusted wrappers whose contracts
  say what those crates do.
- `app/` is the program around it: HTTP routes, the database, the federation
  plumbing, the model runtime, and the driver loops that perform what the
  library decides. `amallgam` runs the server, `amallgam tester` the tester.
- `tests/` exercises the library on concrete values.
