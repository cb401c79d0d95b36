# onscreen_ocr

An overlay that recognizes text on the screen: a global hotkey opens a
borderless window over the current monitor, the user draws a box or a free
polygon, and the text under it is recognized with Tesseract, previewed next
to the selection, and copied to the clipboard.

## Layout

- `src/` is the verified library (Verus). Every function there carries a
  contract, and the modules state their laws as proof functions:
  - `selection`: the selection rectangle, making its size positive, clamping
    it to the screen, containment.
  - `polygon_edit`: what a mouse press does to a polygon selection, and the
    vertex removals and insertions of an edit.
  - `undo_stack`: the undo/redo history of selections.
  - `settings`, `input`: keybinds and their text, detection of a new keybind,
    the OCR languages and stepping through them, the check of loaded
    Tesseract settings.
  - `ocr`, `ocr_event`: the region of the screenshot that is read, how a
    result updates the preview, and the throttling of OCR requests.
  - `preview`, `preview_text`: where the preview text goes and what it says.
  - `icon_atlas`, `icon`: lookup in the icon atlas index, and how icons react
    to the mouse.
  - `overlay`: the monitor under the mouse, the cursor, arrow-key steps.
  - `clipboard_image`: the bitmap bytes of an image for the clipboard.
- `app/` is the program around it: the window and event loop (winit), the
  keyboard hooks (inputbot), screen capture (scrap), Tesseract (leptess), the
  clipboard, the settings files (serde, toml, bincode), and the floating-point
  geometry of polygons, animations and the icon layout.
- `tests/` exercises the library on concrete values.
