# shara

A Telegram bot that registers students for prize draws ("shara"), with the
routing table of its web companion.

- `src/` — the verified library (Verus):
  - `conversation` — how the bot answers a message: a step function from the
    stage of handling and the outcome of the last outside call (a reply sent,
    a database answer, a captcha) to the next stage and the next call;
  - `callback` — the same for presses on prize buttons;
  - `dialogue` — the dialogue stages and the student record;
  - `prize`, `keyboard` — prize descriptions, prize lists and keyboards;
  - `patterns` — the full-name and group patterns (`regex` crate);
  - `text` — decimal numbers, words, integer parsing;
  - `routes` — which web handler answers a request;
  - `config` — the settings and their defaults;
  - `properties` — proofs of properties that span several steps.
- `app/` — the bot program: settings file, PostgreSQL (sqlx), Telegram
  (teloxide); it performs the actions the library asks for.
- `tests/` — tests of the library.
