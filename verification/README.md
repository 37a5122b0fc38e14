# spectre

Browser automation over the Chrome DevTools Protocol, with its logic
verified by Verus.

- `src/` is the verified library: the protocol's messages and how they are
  written as JSON (and read back), the replies and how they are read, how a
  reply is told apart from events and error replies, how a session is opened,
  how the result of an evaluation becomes a value or a runtime error, the
  search of the document tree, where the browser is started, reached and
  installed, and the steps that unpack its downloaded archive.
- `app/` drives the browser: it starts the process, opens the web sockets,
  turns JSON text into the library's `Json` documents and back, downloads
  Chrome for Testing and carries out the unpacking steps, and offers the
  async API (`Browser`, `Page`, and the session commands).
- `tests/` runs the library on messages and replies as the browser writes
  them.
