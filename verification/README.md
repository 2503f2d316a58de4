# statuswatch

Watches the devices of projects on IoT platforms and notifies Discord
webhooks when a device's active-monitor status changes.

- `src/` is the verified library (Verus): platform API URLs (`endpoint`,
  `platform`), change detection and the polling decisions (`poller`),
  message rendering and notification planning (`notify`), the dashboard
  summary and form handling (`views`, `components`), the stored rows
  (`entities`), timestamps (`time`) and the character-level text operations
  they are built on (`text`).
- `app/` is the web service around it: HTTP handlers and HTML rendering
  (axum, maud), the SQLite database (sea-orm), HTTP requests to the
  platforms and to Discord (reqwest), and the 60-second polling loop.
- `tests/` exercises the library on concrete values.
