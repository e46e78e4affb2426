# ani

A command-line client for AniList: `ani info <id>` shows an anime (or, with
`--type character`, a character) next to its cover image, `ani search <text>`
lists matching anime, and `ani generate-zsh-completions` prints a zsh script
that completes ids by searching AniList.

## Layout

- `src/` is the library, verified with Verus:
  - `graphql/` holds the answers of the five GraphQL queries as plain values;
  - `anilist.rs` builds each query's request body and turns each answer into
    results or an error (server errors first, then the first missing part);
  - `models.rs` is the client's model of anime and characters and the
    conversions into it; a character's voice actors are collected over all
    its media, each once, in the order they first appear;
  - `display.rs` lays out what is shown beside and below a cover image, and
    the terminal arithmetic that places text next to it;
  - `completion.rs` finishes clap's zsh script;
  - `pattern.rs` and `text.rs` are the regex and string building blocks.
- `app/` is the program around it: command-line parsing, HTTP requests,
  JSON, and printing to the terminal.
- `tests/` runs the library on concrete values.

The GraphQL query documents in `src/anilist.rs` name the fields that the
answers in `src/graphql/` hold.
