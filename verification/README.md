# turkish_times

The verified core of a small streaming site for Turkish series: public pages
for series, seasons and episodes, a JSON API, and an admin area.

- `src/` is the library, checked by Verus. It holds the records, the forms, and
  every decision the handlers make: the admin session check, login and logout
  answers, the default admin account, slugs, upload file names and the columns
  they update, the multipart readers of the episode and settings forms, search
  patterns and listing queries, the home page's genre list, and the edit pages
  written out directly. Each public function states its result in `ensures`;
  the `law_*` proof functions state the properties that span functions.
- `app/` is the web server around it: routes (axum), the SQLite database
  (sqlx), templates (tera), file uploads and the process environment.
- `tests/` runs the library on concrete values.
