# font_renderer

Loads fonts through FreeType, measures their glyphs and rasterizes them for LCD
screens.

The library under `src/` holds the decisions and the arithmetic, each function
with a contract that Verus proves. It never calls FreeType, whose functions take
raw pointers: it hands out requests made of plain values and works on the
replies. The crate under `app/` carries the requests out.

| module     | holds                                                            |
|------------|------------------------------------------------------------------|
| `context`  | the loaded fonts by key; requests, and results from the replies  |
| `face`     | faces, font descriptors, requests for faces                      |
| `glyph`    | requests for glyphs, slots, dimensions in pixels                 |
| `raster`   | where an outline is rendered, and the image in the bitmap        |
| `fixed`    | 26.6 fixed-point numbers                                         |
| `geometry` | points, sizes, boxes                                             |
| `freetype` | the constants of FreeType that requests and replies use          |
| `laws`     | what holds across several functions                              |

An image has the extents of the glyph's outline, as designed or dilated for stem
darkening, and the rendered bitmap is placed in them. It has four bytes to a
pixel, in the byte order of the machine. Floating
point is left to `app/`: sizes and subpixel offsets enter the library as 26.6
numbers, and the advance of a glyph leaves it as one.
