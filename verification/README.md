# himd

A voice-first companion for coding assistants: it records speech, asks an
audio-understanding model what was said and how, and speaks replies aloud.

The library under `src/` is written in Verus and verified. It holds the
decisions of the program: parsing WAV headers and writing WAV files, the
voice-activity detector that ends a recording, the request and retry policy
of the audio-understanding provider, the recovery of JSON from a model's
reply, the speech-synthesis request and the voice profile, the runtime
paths, the calendar arithmetic of timestamps, and the doctor report.

`app/` is the program around it: the command line, the MCP server, HTTP,
files, audio devices and the floating-point acoustic measurements. It hands
the library plain values and prints what comes back.

Layout of `src/`:

- `text.rs`, `json.rs`: string helpers and the JSON value the library reads
- `acoustic.rs`: WAV header parsing and the `audio_turn` answer
- `provider.rs`: audio understanding (request, retries, reply parsing)
- `tts.rs`: speech synthesis requests, voice profile, timestamps
- `audio/`: device diagnostics, the detector, WAV writing, capture results
- `doctor.rs`: the doctor report and its human-readable form
- `runtime_paths.rs`, `tools.rs`, `types.rs`, `errors.rs`
