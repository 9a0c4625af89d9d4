# cortex

The CorTeX web frontend and task dispatcher, with its decisions verified by Verus.

- `src/` is the verified library:
  - `text`: character-level string operations (replacement, decimal numbers).
  - `strmap`: a string-keyed map that keeps first-insertion order.
  - `uri`: escaping and unescaping of URI parameters over `url`'s percent-encoding,
    with the proof that unescaping inverts escaping.
  - `context`: template contexts and their link decorations.
  - `report`: report levels, metadata, cache keys and paging.
  - `cache`: the report cache worker's invalidation keys.
  - `captcha`: reCAPTCHA responses, download quotas and result archive paths.
  - `pages`: global entries, messages and access decisions of the other pages.
  - `cors`: the CORS response headers.
  - `dispatcher`: task manager settings, the finalize loop and the manager's outcome.
- `app/` is the ordinary Rust around it: Rocket routes and templates, Redis,
  the reCAPTCHA HTTP call, the configuration file, threads and sleeps. The task
  store is reached through its `TaskStore` trait.
- `tests/` exercises the library on concrete values.
