# ezcurl

A terminal HTTP client: edit a request (method, URL, header table, body), send it,
look at the response, and browse or restore earlier requests from a history.

- `src/` is the verified library. `editor` is the text field with its cursor,
  `request` the methods, the header table and the request, `response` and `history`
  what comes back and what is kept, `app` the session's state machine, `input` the
  key bindings, `view` the decisions behind the screen layout, `client` the checks
  made before a request is handed to the transport. Each module states its behaviour
  over abstract models (`EditorModel`, `HeadersModel`, `RequestModel`, `AppModel`)
  and proves it; functions named `law_*` state properties that span operations.
- `app/` is the program around it: terminal setup, drawing with ratatui, key
  reading with crossterm, the HTTP transfer with reqwest, and the history file.
- `tests/` exercise the library on concrete values.
