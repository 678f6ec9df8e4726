# mastodon_mirror

Mirrors the media posts of subreddits to Mastodon accounts.

- `src/` is the verified library (Verus): the configuration of a mirror
  and how it is set up (`config`), which fetched posts are new and how
  they are queued (`config`, `sync_data`), how a gfycat link is reduced to
  the clip's name and where a post's media is fetched from (`reddit`), the
  Mastodon account data, authorization request and endpoints (`mastodon`),
  the error types (`error`) and substring search (`text`).
- `app/` is the program around it: the clock, the configuration file,
  the HTTP requests to Reddit, gfycat and Mastodon, and the serde copies of
  the library's types.
- `tests/` runs the library on concrete values.
