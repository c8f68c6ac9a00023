# dict_core

The verified core of an AI dictionary desktop tool (a Tauri application).

- `src/text.rs` – Unicode white space, trimming, text equality, and the test
  that copied text is English (ASCII letters make up at least 60% of the
  characters that are neither white space nor common punctuation).
- `src/listener.rs` – recognising a double Ctrl+C from polled key states.
- `src/capture.rs` – reading the clipboard with a bounded number of retries and
  choosing the text to translate.
- `src/monitor.rs` – the clipboard monitor's settings, with the interval kept
  within 200–5000 ms.
- `src/transfer.rs` – the results reported for data export and import.
- `src/window.rs` – answers of window commands, tray menu and tray icon actions.

`app/` holds the Tauri shell: commands, the tray, the keyboard polling thread,
clipboard and file I/O, and the serialisable copies of the library's types.
