# snapvault

SnapVault is a screenshot tool: a hotkey (Shift+F2) or the tray menu hides
the main window, captures the screen, and shows a full-screen overlay in
which the user selects a region and copies it to the clipboard or saves it
as PNG.

- `src/` is the verified library (Verus): pixel-buffer conversions and crops,
  the overlay's selection state machine and layout, the editor magnifier's
  zoomed block and texts, the annotation history,
  the hotkey manager and its labels, the settings window's key recorder,
  tray menu classification, the app's capture flow and the latency bench's
  flow. Calls into `image` and `global-hotkey` go through trusted items
  whose contracts are stated next to them.
- `app/` is the program around it: the egui/eframe windows, the Win32
  overlay and settings windows, screen capture (xcap, DXGI), clipboard,
  file dialogs and the tray icon.
- `tests/` exercises the library on concrete values.
