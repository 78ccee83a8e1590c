# vibe_coding_voice_native

A local-first voice dictation tool for developers: record speech, transcribe
it with a local SenseVoice model (or the Qwen-ASR realtime service), shape the
text for the chosen output mode and paste it into the active input field.

## Layout

- `src/` — the verified library (Verus). Every decision of the dictation
  pipeline lives here with a contract: application state and its defaults,
  whitespace normalisation and prompt shaping, delivery planning, model
  directory layouts and `tokens.txt`, the Qwen-ASR client events and server
  event handling, global shortcut parsing, capture and registration, and the
  tray icon bitmap. Calls into `serde_json`, `base64` and `global-hotkey`
  stand behind small trusted wrappers whose doc comments say what is assumed.
- `tests/` — tests of the library on concrete values.
- `app/` — the desktop shell (window, microphone, overlay, clipboard, tray,
  speech engines, WebSocket), which performs the outside work and hands each
  outcome to the library.
