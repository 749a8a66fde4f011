# snipstack

The verified core of a screen-snip OCR and clipboard-history tool.

- `src/` — the library, checked by Verus: window-geometry store and its
  write ordering (`window_state`), the in-progress registry (`in_flight`),
  snip sessions, selection cropping and barcode/PNG/JPEG handling (`snip`),
  the confirmed-snip flow as a step function (`confirm`),
  joining recognized text (`text`), OCR engine decisions (`ocr`), language
  pack catalogue and download rules (`packs`), the main-thread watchdog
  (`diagnostics`), clipboard exclusion markers (`exclusion`) and UI labels
  (`i18n`).
- `app/` — ordinary Rust around it: locks, threads, files, HTTP downloads
  (with the library choosing the source and accepting each file by size, and
  by SHA-256 where the pack catalogue carries a digest, which it does not
  yet), the confirmed-snip and background-recognition flows, the engine
  cache, the clipboard exclusion probe, panic hook and the watchdog loop.
- `tests/` — tests of the library.
