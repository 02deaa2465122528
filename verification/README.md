# ruffle

Verified logic of a Flash Player emulator, written in Verus.

- `src/` is the library. Every function in it is verified against its
  contract: SWF filter flags, AVM2 scope resolution, the natives of several
  AVM2 classes (`Stage`, `RegExp`, `GameInput`, `Mouse`, `Font`, `void`,
  numbered properties of vectors and byte arrays), the census of tags and
  actions in a movie, renderer bookkeeping (pipeline layouts, draw bindings,
  uniform storage, the texture list, the null renderer) and the desktop
  front end's decisions (cursors, gamepad events, dialogs, file and network
  response bodies).
- The few calls into other code (`str::parse`, the operating system's
  random number generator through `rand`, the `jpeg-decoder` crate) sit
  behind small trusted wrappers whose contracts say what is assumed of them.
- `tests/` runs the library on concrete values.
- `app/` is the survey program: it walks a directory of movies, decodes each
  with the project's `swf` crate and writes the census as CSV.
