# whatsapp_lite

A tray-resident desktop wrapper around WhatsApp Web. The decisions it makes
are verified with Verus in `src/`; the Tauri and Win32 plumbing lives in `app/`.

- `src/badge.rs` — window title and taskbar overlay for an unread count.
- `src/icon.rs` — pixel layout of the numeric badge icon (3x5 font), with
  proofs that it paints exactly the digits of `min(count, 99)`, stays inside
  the 16x16 icon, and tells counts apart.
- `src/tray.rs` — tray menu entries, their commands, toggling and closing the
  main window.
- `src/script.rs` — the style sheet and the script injected into the page.
- `app/` — the Tauri application (`run`, the `set_badge_count` command) and,
  on Windows, the COM/GDI code that draws and sets the overlay icon.
