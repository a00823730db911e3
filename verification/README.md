# FileHide

FileHide hides Windows files and folders quickly by setting their hidden and
system attributes, and restores exactly the attributes they had before. It is
a visibility tool, not encryption.

The library in `src/` holds the rules of the application, verified with Verus:

- `file_attributes`: the lock mask and the restore mask.
- `marker`: the `:FileHide` recovery marker, its text and its parser (a
  written marker always reads back as what was written).
- `paths`, `text`: path cleanup, UTF-16 for the Windows API, batch
  deduplication, file identities, renamed-item detection, target checks.
- `status`: the live protection status of a history row.
- `password`, `session`: the optional access password (Argon2id) and the
  session gate with auto-lock.
- `transaction`, `locking`, `restoring`, `recovery`: the lock, restore and
  recovery transactions as step functions, with their compensating steps.
  An item on a FAT or exFAT volume is locked by its attributes alone, without
  a recovery marker.
- `scan`, `batch`, `records`, `webview`: the recovery-scan walk, batch locks,
  stored settings and the WebView2 version check.

An item's identity is its NTFS volume serial number and file index, so it
survives renames and changes of the contents.

`app/` is the Tauri program around it: the commands, the SQLite database,
the Windows file-attribute and registry calls, and the recovery-scan thread.
It performs the actions that the transactions ask for and reports back.
