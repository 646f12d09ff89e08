# omarchyiso

A terminal program that builds a customised Omarchy Linux ISO image: the user
picks AUR and official packages, base packages to leave out, `~/.config`
entries and home dotfiles, then the program clones the image builder, writes
the choices into it, runs it and moves the image beside the working directory.

Layout:

- `src/` is the verified library (Verus). It holds the decisions of the
  program: the screens and what each key does (`session`, `ui`), the choices
  and what is derived from them (`config`), reading package listings and
  directory listings (`scan`), the order of names (`order`), the steps of the
  image build (`image_build`), what each screen shows (`view`), text helpers
  (`text`) and the properties proved across functions (`laws`).
- `app/` is the program around it: the terminal, the key events, the commands
  and file operations, and the drawing.
- `tests/` runs the library on concrete values.
