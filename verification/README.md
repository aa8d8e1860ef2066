# ydav_gtk

A desktop companion for the Ydav2024 phone server: it asks an Android
phone over TCP for its state, calls, received text messages and address
book, sends text messages and USSD requests, and mirrors the phone's data
in a local SQLite database.

- `src/` is the verified library: the JSON request lines (`command`,
  `json`), the request/reply exchange as a state machine (`exchange`), the
  records the phone answers with (`contact`, `phone`, `sms_input`, ...),
  the settings and their saving script (`config`), the SQL text that
  mirrors the phone's data (`statements`), how calls and lookups are shown
  (`display`), the copy buttons of a message (`sms_scan`) and the named
  properties of the list rows (`fields`).
- `app/` is the GTK window around it: widgets, the TCP connection, JSON
  decoding and the database file.
- `tests/` runs the library on concrete values.
