# webview_bridge

The logic of the WebView Bridge server, verified with Verus: named browser
sessions and their cleanups, the window-session pool, downloads and stored
files with their expiry, macros, wait and goal scripts, screenshots and
device presets, cookie filtering, upload naming, the MCP tool and resource
planning, and the text formats (ISO 8601 stamps, JSON members, messages)
that these produce.

Layout:

- `src/`: the verified library. Each module states its behaviour in
  `requires`/`ensures` over spec functions and views; laws that relate
  several operations are public proof functions named `law_*`.
- `tests/`: ordinary Rust tests of the library.
- `app/`: the server program around the library: command line, configuration
  files, HTTP and WebSocket serving, the MCP proxy over standard input,
  cookie databases, AI provider calls, and the parts that use floating point.

The library's outside calls (chrono, regex, uuid, serde_json, rand, base64
and a few std functions) stand behind small trusted items whose doc comments
say what is assumed of each.
