# xmz_gui

Client logic of the graphical front end of the xMZ-Plattform, verified with
Verus.

- `src/app.rs`: the application controller (syncing, connecting, the pages
  the window shows) and the step of the loop that reads the backend's answers.
- `src/backend/`: the backend, which turns the application's commands into
  HTTP requests to the `xmz-server` and answers.
- `src/utils.rs`: request URLs (built with the `url` crate) and the decisions
  around an HTTP request.
- `app/`: the GTK program, the HTTP client (`reqwest`), the configuration
  (`config`) and the threads that carry out what the library decides.
