# meeting_prompt

The decisions behind a meeting prompt, verified with Verus: recognising a meeting from the windows
of a browser, asking whether to record it, and starting and ending recordings on its own.

- `src/text.rs`: trimming, UTF-16 and Latin-1.
- `src/window_title.rs`, `src/x11.rs`: which browser window stands for which meeting.
- `src/prompt_logic.rs`: when to ask whether to record.
- `src/auto_recording.rs`, `src/clock.rs`: when a recording that was started without asking ends.
- `src/runtime.rs`: the state behind the prompt window, and what each event asks for.
- `src/settings.rs`, `src/worker.rs`, `src/placement.rs`: switches, the listening thread, the
  window's fallback position.
- `src/*_laws.rs`: what holds of all titles, searches, recordings and courses of events.
- `app/`: the program around the library, built on Tauri: windows, clocks, settings and threads.
