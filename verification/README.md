# smartpaste

The core of the SmartPaste clipboard manager as a verified library. Its functions carry
`requires`/`ensures` contracts that Verus proves; the few that call outside crates do so
through small trusted wrappers whose contracts say what the outside code documents.

- `src/`: the library. It covers clipboard records and the last-inserted slot
  (`clipboard`), settings (`config`, `config_update`), paths (`paths`), shortcuts
  (`shortcuts`), privacy detection (`privacy`), the history database's statements and
  path rules (`storage`, `queries`), the clipboard monitor's decisions (`monitor`), OCR
  settings (`ocr`), files and backups (`files`), input listeners (`input`), and string
  helpers (`text`).
- `tests/`: tests of the library on concrete values, some against an in-memory SQLite
  database.
- `app/`: a command-line program around the library. It handles the settings file, the
  database, backups and the cleanup worker. The clipboard monitor's loop
  (`workers::start_clipboard_monitor`) takes its clipboard through a `ClipboardSource`,
  which a system-clipboard service supplies; none is linked into this program.
