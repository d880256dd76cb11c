# crpipeline

The backend of a multi-tenant document analysis platform: organisations
upload documents, define pipelines of stages (OCR, parsing, AI, report,
commands), and a worker runs those pipelines as analysis jobs.

## Layout

- `src/` — the verified library (Verus). The decisions of the server and
  the worker are functions here with contracts: request validation and
  authorisation, session tokens and their expiry, the step machines of the
  HTTP handlers (each takes what the database, storage or mailer answered
  so far and gives the next step), the pipeline-stage rules, the parse
  strategies, report templating, Markdown parsing and page layout, rate
  limiting, configuration, retries and storage keys. Calls into outside
  crates (regex, JSONPath, pulldown-cmark, jsonwebtoken,
  sanitize-filename, argon2 and its random source, http's header checks,
  dashmap) go through small trusted wrappers whose contracts are
  documented where they stand.
- `tests/` — tests of the library.
- `app/` — the program around it: `main` (subcommands `worker`, `cleanup`,
  `create-admin`, and the API server by default), the actix-web handlers and
  middlewares, database queries, S3 storage, email delivery, the worker loop,
  the clock and the token secret, metrics, the page count of uploaded PDFs
  (lopdf, run on a thread of its own with a time limit, since it never
  returns on some malformed documents), and the PDF drawing (printpdf
  takes floats), together with the numeric column summaries of parsed
  tables (floats too).
