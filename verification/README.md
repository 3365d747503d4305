# ironclaw media and browser support

Verified core of the browser-automation, text-to-speech, speech-to-text and
relay-channel features.

- `src/` — the library, with its contracts and proofs:
  - `browser/` — the navigation URL policy (IPv4 and IPv6 hosts), error
    messages, launch settings, navigation results, the browser tools'
    metadata, content truncation and screenshot payloads;
  - `speech/` — the voice-activity state machine (with its laws), the
    segmenter that cuts captured audio into utterances, and transcript
    assembly;
  - `tts/` — audio formats, errors, and the HTTP requests of the OpenAI and
    ElevenLabs providers;
  - `config/` — browser and TTS configuration, provider selection;
  - `channels/relay.rs` — which relay events become messages (and, over a
    run, that exactly those are passed on, in order), and what replies send;
  - `tools/speak.rs` — the speak tool's format choice and result;
  - `text.rs`, `secret.rs`, `encoding.rs` — string helpers, API keys,
    base64.
- `app/` — the runtime around it: Chrome over CDP, HTTP, audio capture,
  whisper, tokio tasks, environment variables, and the floating-point frame
  classification.
- `tests/` — tests of the library.
