# lazyboot library

The decisions of a small UEFI bootloader that shows a two-option menu and then either
loads and starts a Linux kernel from the boot device or powers the machine off.

- `src/` is the verified library:
  - `status`: firmware status codes.
  - `firmware`: the plain data the bootloader reads of the firmware (protocol identifiers,
    key strokes, reset kinds, a loaded image's fields).
  - `ucs2`, `console`: how text becomes the 16-bit code units the firmware prints, one
    `output_string` buffer per character, with a carriage return before each line feed.
  - `decimal`: decimal formatting of byte counts.
  - `menu`: what the menu draws and how it answers each key.
  - `load_options`: the kernel's command line buffer and how the kernel's image is pointed
    at it.
  - `boot`: the boot sequence as a sequence of firmware calls, and what follows each answer.
- `app/main.rs` is the firmware program: it holds the firmware's tables, makes the calls and
  runs the menu and boot loops, asking the library at each step.
- `tests/` exercises the library on concrete values.
