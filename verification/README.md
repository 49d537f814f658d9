# straico_proxy

An OpenAI-compatible proxy in front of the Straico API, with its request and
response logic written in Verus and proved against its contracts.

- `src/` is the verified library: content conversion and validation, tool
  definitions embedded in prompts, tool calls read back out of answers,
  completions replayed as stream chunks, the decisions of a streamed response
  (`stream_session`), upstream status mapping, errors, configuration and
  feature flags, and the text the server logs or answers.
- `tests/` runs the library on concrete values.
- `app/` is the server around it: command line, logging, the HTTP and HTTPS
  listeners, upstream requests, JSON (de)serialization and configuration
  files.
