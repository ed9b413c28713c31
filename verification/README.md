# buck2bes

Translates the event stream of a Buck2 command into the Bazel Build Event
Stream (BES), and prepares the requests that publish such a stream to a Build
Event Service.

- `src/` is the library, verified with Verus:
  - `buck_data`, `build_event_stream`, `devtools_build`, `protobuf`: the
    messages read and produced, with the views that the contracts use;
  - `translate`: `BuckEventTranslator`, whose `translate` is specified by
    `translate_spec`, and the laws of the translation (sequential progress
    ids, the children announced by `BuildStarted`, the finish time);
  - `client`: the order of the BES lifecycle steps, the lifecycle and
    build-tool stream requests, and the current time as a timestamp.
- `app/` holds the protobuf wire encodings and the gRPC client that sends
  the requests.
- `tests/` runs the library on concrete events.
