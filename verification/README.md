# botcast

The verified core of a podcast worker that turns scripts into spoken episodes.

- `src/` is the library, written and proved with Verus. Each public function
  states what it returns in its `ensures`; the laws of the library are public
  proof functions named `law_*`.
- `tests/` exercises the library on concrete values.
- `app/` is a small command-line front end: it fetches pages, reads feeds,
  drives a VoiceVox engine and ffmpeg, and prints what the library decides.
