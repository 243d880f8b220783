# ytgui

The logic of a desktop front end for yt-dlp and ffmpeg, verified with Verus.

- `src/` — the verified library:
  - `text.rs`: substring search, line splitting as `str::lines` does it, decimal rendering;
  - `formats.rs`: yt-dlp's JSON document read through `serde_json`, video metadata with its
    defaults and the menu of download formats;
  - `invocation.rs`: yt-dlp command lines and the reading of its metadata output;
  - `progress.rs`: progress events read from yt-dlp's output (through the `regex` crate);
  - `binaries.rs`: program names, download sources, the ffmpeg archive handling and
    the search for a program (remembered path, `PATH`, application directory, download)
    and the steps of the search for a file in an unpacked archive;
  - `session.rs`: starting and stopping the single running download, folder choice.
- `tests/` — tests on concrete values.
- `app/` — the Tauri application: processes, threads, file system, network, dialog.
