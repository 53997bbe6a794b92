# blackbox

The core of an always-on multichannel WAV recorder, written in Verus: the
library under `src/` is verified, and `app/` is the command-line recorder
around it (audio device, threads, files).

- `config`, `config_file`: settings, their defaults and validation, the
  precedence of environment over file over defaults, forgiving key-by-key
  loading, the search order of configuration files and the sample file.
- `channels`: channel lists such as `0,2-4,7` and the channels a device can
  record.
- `rotation`: when continuous recording starts a new file, and which samples
  of a capture batch the ring buffer accepts.
- `wav`, `writer`: the RIFF/WAVE header the recorder writes and reads back,
  frame encoding, and the accounting of a file being written (flush,
  finalize, salvage after a failed flush, frames owed in split mode).
- `recovery`: repairing and renaming recordings a crash left behind.
- `menu`: the menu-bar interface's decisions: status line, start/stop
  toggle, checked duration and channel items, and what each click asks.
- `recorder`, `status`, `pending`, `error`, `ui`: the recording driver, the
  status the application polls, the silence-check backlog, errors and the
  texts the user interface shows.

`tests/` exercises the library on concrete values.
