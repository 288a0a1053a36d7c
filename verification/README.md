# easytk

Helpers for small GUI applications built from components: a model, a
handler for the events that the view sends, and an update that brings the
widgets up to date after each handled event.

- `src/` is the verified library: what a splitter does when dragged or
  resized, how each kind of widget is brought up to date with a value, how
  window settings resolve, how file choosers are opened and what their
  answers become, and the event loop's tick.
- `app/` is the toolkit glue (FLTK on Windows, GTK on Linux): it reads the
  widgets, asks the library, and calls the widgets' setters.
- `tests/` runs the library on concrete values.
