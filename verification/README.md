# manga_notifier

A Telegram bot that follows mangas on MangaDex and tells its users when a
new chapter is out.

- `src/` is the verified library: the dialogue with a user (`handlers`),
  the MangaDex addresses and what is read from the answers
  (`manga_info_getter`), the decisions taken on the database (`database`),
  the hourly chapter check (`polling`) and the character-level helpers that
  print and read numbers (`text`).
- `app/` is the program around it: the Telegram dispatcher, the HTTP
  requests, the SQLite tables and the JSON shapes of the answers.
- `tests/` runs the library on concrete values.
