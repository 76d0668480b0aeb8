# sixel_backend

A Slint backend that draws the user interface in a terminal with sixel graphics. What it decides and
computes is verified with Verus.

- `src/` is the verified library: the geometry of the image and the pointer, the translation of
  terminal events into window events, the framing of encoded images, the order of the event loop.
- `app/` is the program around it: it talks to the terminal and to Slint, and converts between their
  types and those of the library. `init` installs the backend.
- `tests/` runs the library on given values.

The library calls three other crates, through small functions whose contracts are believed, not
proved: crossterm for sets of modifier flags, slint for the characters of named keys and icy_sixel
for the sixel encoding itself.

On an image that uses all of its 256 colours and then the last new one again, icy_sixel's
`sixel_string` overflows while it counts the colours: a build with overflow checks panics, any other
copes. The library notices that beforehand. It then numbers the colours itself and lets icy_sixel do
the rest step by step, so that the frame is written with the same text in every build.

icy_sixel cannot count the bytes of an image of more than about 700 million pixels. The library
leaves such a frame to the program, which runs the encoder all the same.
