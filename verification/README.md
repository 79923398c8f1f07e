# kitty_placeholders

Unicode placeholders of the kitty graphics protocol, verified with Verus.

An image placed with `U=1` is registered as a virtual placement. Cells that
hold the character U+10EEEE then display fragments of it: the foreground color
and the diacritics of the cell give the image id, the underline color the
placement id, and the diacritics the row and the column of the fragment.

* `src/diacritics.rs`: the diacritics and the decoding of a grapheme
* `src/component.rs`: single precision color components, by bit pattern
* `src/color.rs`: colors, and the ids that they encode
* `src/placements.rs`: the register of virtual placements
* `src/screen.rs`: the grid of cells and the fragments attached to them
* `src/terminal.rs`: registering, removing, finding and resolving
* `src/laws.rs`: what holds across these operations
* `app/`: floating point conversions, error reports and logging
