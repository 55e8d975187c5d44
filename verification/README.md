# winusb_switcher

The verified core of a desktop helper that switches SEGGER J-Link probes to
the WinUSB driver, and that downloads and installs J-Link when it is missing.

`src/` is a Verus library: its functions carry contracts and are proved, but
for a few trusted wrappers around outside code whose contracts are assumed
(`push_char` and `to_lowercase` in `text.rs`, over `String::push` and
`str::to_lowercase`; `read_zip_entries` in `bundled_jlink.rs`, over the zip
crate's archive reader).  It holds

- `jlink/` — J-Link Commander scripts, parsing of `ShowEmuList` and firmware
  banners, the firmware-update outcome, and the USB-driver switch as a
  protocol of sessions (`switch` / `UsbDriverSwitch::step`);
- `platform/`, `paths.rs` — executable names, search directories, path
  joining, and the `PATH` / `LD_LIBRARY_PATH` values that make J-Link runnable;
- `download/` — installer URLs and paths, HTTP response checks and progress,
  browser-download bookkeeping, installer commands and outcomes, the Windows
  install watch, and what a cancelled download deletes;
- `bundled_jlink.rs` — where the bundled archive is found and extracted, the
  entry-path check that keeps every entry inside the destination, and the
  extraction plan: which directories are created and which files written, in
  archive order, up to the first entry that would leave the destination;
- `text.rs` — the character-sequence model (`find`, `lines`, `trim`, `split`,
  decimal numbers) the parsers are proved against;
- `state.rs`, `error.rs` — the cached J-Link command and the error type.

`app/` is the Tauri application around it: windows and commands, processes,
files, network and environment variables.  It performs what the library
decides (for the bundle: it reads the archive file, creates the directories
and writes the files of the plan, then updates `PATH`).

`tests/` run the library on concrete J-Link output and platform settings.
