# unified_generations

A client for the Volcengine Doubao Ark Agent Plan API (messages, image
generation, text-to-speech) and for MiniMax image and speech generation.

The library under `src/` is written in Verus. It holds the client's logic,
each function with a contract that Verus proves:

- `config` — the Ark CLI config file's contents, resolving client settings
  from defaults, the config file, the environment and an explicit key, the
  config file's path, and masking the API key for display;
- `client` — endpoint URLs, the HTTP status check, the headers of a
  speech request (carrying the configured speech resource), and reading a
  reply header as text;
- `tts` — speech requests, splitting a speech reply into its JSON lines,
  gathering the audio from the parsed lines, and the server's base64 reply;
- `minimax` — MiniMax settings, requests, and decoding of replies, hex audio
  included;
- `llm`, `image` — message and image requests and replies;
- `service` — turning the fields of service requests into library requests;
- `voices`, `init`, `text`, `error`, `json` — voice selection, the source of
  the key written by `init`, text helpers, the error type with the text of
  each error, and the opaque JSON value type.

The application under `app/` does the I/O: it reads the environment and the
config file, sends the HTTP requests (speech to the configured speech
endpoint), parses JSON and TOML into the library's types, and runs the command
line and the HTTP server. The MiniMax speech request, whose speed and volume are
floating-point numbers, is built there too.
