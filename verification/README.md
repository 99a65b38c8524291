# Typist

Typist listens to your voice and types. It tells apart

- **dictation**, which goes into the document,
- **commands** (new paragraph, delete, undo, headings, bullets, ...), which edit it, and
- **conversation**, which is answered and not typed.

Utterances are classified by a language model where one is configured, and else by local rules,
in English and Mandarin. Documents are plain text or Markdown, with undo and redo.

## Layout

- `src/` is the library. It is written in Verus: each function states what it does in
  `requires` and `ensures`, and Verus proves that it does. What holds of the library as a whole
  is stated in the proof functions whose names start with `law_`.
- `app/` is the program around it: audio devices, files, HTTP, the clipboard, the terminal, and
  arithmetic on floating-point samples.
- `tests/` runs the library on concrete values.

| Module | What it holds |
|---|---|
| `document`, `history` | the document, its undo history, and their laws |
| `events` | the events of the pipeline and the classified actions |
| `intent`, `llm` | classification by rules, and by a language model |
| `vad` | cutting a stream of audio into speech segments |
| `audio`, `wav`, `mp3` | audio sources and audio files |
| `transcriber` | speech recognition: requests, answers, and where the local model is |
| `ui`, `session`, `keys`, `panels` | the application state, its events, keys and panels |
| `typer` | typing text out by way of the clipboard |
| `config`, `cli` | settings and the command line |
| `text`, `json`, `clock` | characters, JSON documents and clock readings |

## What is trusted

Verus believes the contracts of a few outside functions without proof. Each of them stands
behind a function marked `external_body` or in an `assume_specification`, with a comment that
says what is claimed: `str::to_lowercase` and `str::to_uppercase`, `String::push`,
`Path::file_name`, the readings of the clock (`Instant`, `chrono`), the WAV reader and writer of
`hound`, the MP3 decoder of `minimp3`, and the JSON parser and string writer of `serde_json`.

## Configuration

| Variable | Description | Default |
|---|---|---|
| `ASR_BACKEND` | `local` (runs local Whisper) or `remote` (calls ASR API) | `local` if no API is set |
| `WHISPER_MODEL` | Local Whisper model (`tiny`, `base`, `small`) | `tiny` |
| `LOCAL_WHISPER_MODEL_PATH` | Path to a GGML model file | found or downloaded |
| `ASR_API_URL` | ASR API endpoint URL | `http://localhost:8080/v1/audio/transcriptions` |
| `ASR_API_KEY` | ASR API key | (empty) |
| `ASR_MODEL` | Remote ASR model name | `whisper-1` |
| `ASR_LANGUAGE` | Language hint (`en`, `zh`, `auto`) | `auto` |
| `LLM_API_KEY` | LLM API key; empty for offline dictation | (empty) |
| `LLM_BASE_URL` | LLM API base URL | `https://api.openai.com/v1` |
| `LLM_MODEL` | LLM model name | `gpt-4o-mini` |
| `SILENCE_THRESHOLD` | Speech detection sensitivity | `0.02` |
| `SILENCE_DURATION` | Seconds of silence that end a recording | `1.5` |
| `MAX_RECORD_SECONDS` | Longest speech segment, in seconds | `30` |
| `OUTPUT_FORMAT` | `plain` or `markdown` | `markdown` |
| `TYPING_SPEED` | Characters per second (0 = paste) | `0` |
| `SAVE_DIRECTORY` | Directory for saved documents | `./output` |
