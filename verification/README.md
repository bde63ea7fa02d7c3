# canvas_ai

The decision-making core of an AI image/text generation back end, verified with
Verus: the GRSAI image provider (model routing, request bodies, reference-image
handling, reading of generate and result replies, polling), generation-job
bookkeeping (what is stored, what a status query answers, cancellation), and
prompt polishing (request planning, reply reading, error texts).

- `src/` — the verified library. `text` (string operations over `Seq<char>`),
  `json` (a plain JSON model), `provider` (requests, errors, task results),
  `grsai`, `media` (reference-image codecs and base64), `jobs`, `registry`,
  `polish`, `clock`, and `laws` (properties across operations).
- `app/` — ordinary Rust around it: HTTP exchanges (reqwest), the SQLite job
  store (rusqlite), file reads, serde forms of the library's types, and the
  commands that tie them together.
- `tests/` — tests of the library on concrete values.
