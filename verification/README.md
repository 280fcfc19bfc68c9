# actobase

A command-line client for the Actobase request and account services, with its logic
verified by Verus.

- `src/` is the verified library: the commands and their arguments (`cli`), the JSON values
  the client sends and reads (`json`), the stored account and where it lives (`config`), the
  requests and how answers are read (`client`), what `auth show` reports (`output`), the
  decisions of each command as steps (`commands`), text helpers (`text`), and properties
  that span these (`laws`).
- `app/` is the program around it: argument parsing with clap, reading and writing the
  config file with serde, HTTP with reqwest, and the loop that performs the library's steps.
- `tests/` runs the library on concrete values.
