use vstd::prelude::*;

verus! {

/// Width of the screen in pixels.
pub const SCREEN_WIDTH: usize = 160;

/// Height of the screen in pixels.
pub const SCREEN_HEIGHT: usize = 144;

/// The picture processing unit: video RAM, object attribute memory, the LCD registers, and the
/// state of the dot-by-dot rendering of the screen into `pixels` (one colour index, 0 to 3, per
/// pixel, row after row).
pub struct Graphics {
    dot_count: u16,
    pixels: [u8; 23040],
    video_ram: [u8; 8192],
    object_attribute_memory: [u8; 160],
    lcdc: u8,
    stat: u8,
    scy: u8,
    scx: u8,
    ly: u8,
    lyc: u8,
    bgp: u8,
    obp0: u8,
    obp1: u8,
    wy: u8,
    wx: u8,
    x: u8,
    y_condition: bool,
    counter: u8,
    window_active: bool,
    window_row: u8,
    penalty: u16,
    overlapping_object_indexes: Vec<u8>,
}

#[verifier::ext_equal]
pub ghost struct GraphicsView {
    /// The dot of the current line, 0 to 455.
    pub dot_count: u16,
    pub pixels: Seq<u8>,
    pub video_ram: Seq<u8>,
    pub object_attribute_memory: Seq<u8>,
    pub lcdc: u8,
    pub stat: u8,
    pub scy: u8,
    pub scx: u8,
    /// The line being drawn, 0 to 153 (144 to 153 are the vertical blank).
    pub ly: u8,
    pub lyc: u8,
    pub bgp: u8,
    pub obp0: u8,
    pub obp1: u8,
    pub wy: u8,
    pub wx: u8,
    /// The next pixel of the line to draw.
    pub x: u8,
    pub y_condition: bool,
    pub counter: u8,
    pub window_active: bool,
    pub window_row: u8,
    /// Dots left before the first pixel of the line is drawn.
    pub penalty: u16,
    /// The objects (indexes into the object attribute memory) that cover the current line.
    pub overlapping_object_indexes: Seq<u8>,
}

/// The addresses that the graphics unit answers reads at.
pub open spec fn is_graphics_read_address(address: u16) -> bool {
    ||| 0x8000 <= address < 0xA000
    ||| 0xFE00 <= address < 0xFEA0
    ||| 0xFF40 <= address <= 0xFF4B
}

/// The addresses that the graphics unit answers writes at (0xFF46, the DMA register, is
/// handled by the bus).
pub open spec fn is_graphics_write_address(address: u16) -> bool {
    is_graphics_read_address(address) && address != 0xFF46
}

/// A byte read as a signed offset.
pub open spec fn signed_byte(value: u8) -> int {
    if value < 128 {
        value as int
    } else {
        value as int - 256
    }
}

/// Bit `bit` (0 is the rightmost, 7 the leftmost pixel) of a row of a tile.
pub open spec fn tile_bit(byte: u8, bit: int) -> u8 {
    (byte >> ((7 - bit) as u8)) & 1
}

impl GraphicsView {
    pub open spec fn initial() -> GraphicsView {
        GraphicsView {
            dot_count: 0,
            pixels: Seq::new(23040, |i: int| 0u8),
            video_ram: Seq::new(8192, |i: int| 0u8),
            object_attribute_memory: Seq::new(160, |i: int| 0u8),
            lcdc: 0,
            stat: 0,
            scy: 0,
            scx: 0,
            ly: 0,
            lyc: 0,
            bgp: 0,
            obp0: 0,
            obp1: 0,
            wy: 0,
            wx: 0,
            x: 0,
            y_condition: false,
            counter: 0,
            window_active: false,
            window_row: 0,
            penalty: 0,
            overlapping_object_indexes: Seq::empty(),
        }
    }

    /// The sizes of the memories and the ranges of the position counters; every pixel is a
    /// colour index from 0 to 3.
    pub open spec fn shape_ok(self) -> bool {
        &&& self.pixels.len() == 23040
        &&& forall|i: int| 0 <= i < 23040 ==> #[trigger] self.pixels[i] < 4
        &&& self.video_ram.len() == 8192
        &&& self.object_attribute_memory.len() == 160
        &&& self.dot_count < 456
        &&& self.ly < 154
        &&& self.x < 160
        &&& self.overlapping_object_indexes.len() <= 40
        &&& forall|i: int|
            0 <= i < self.overlapping_object_indexes.len() ==> #[trigger] self.overlapping_object_indexes[i]
                < 40
    }

    /// What every reachable state of the graphics unit satisfies.
    pub open spec fn inv(self) -> bool {
        &&& self.pixels.len() == 23040
        &&& forall|i: int| 0 <= i < 23040 ==> #[trigger] self.pixels[i] < 4
        &&& self.video_ram.len() == 8192
        &&& self.object_attribute_memory.len() == 160
        &&& self.dot_count < 456
        &&& self.ly < 154
        &&& self.x < 160
        &&& self.overlapping_object_indexes.len() <= 40
        &&& forall|i: int|
            0 <= i < self.overlapping_object_indexes.len() ==> #[trigger] self.overlapping_object_indexes[i]
                < 40
        &&& self.counter <= 7
        &&& 0 < self.dot_count <= 80 ==> self.counter == 0
        &&& self.penalty <= 19
        &&& self.ly < 144 && 0 < self.dot_count <= 80 ==> self.penalty == 0
    }

    /// The mode of the unit, in the low two bits of STAT: 0 horizontal blank, 1 vertical blank,
    /// 2 object search, 3 drawing.
    pub open spec fn mode(self) -> u8 {
        self.stat & 0b11
    }

    pub open spec fn with_mode(self, mode: u8) -> GraphicsView {
        GraphicsView { stat: (self.stat & 0b11111100) | (mode & 0b11), ..self }
    }

    pub open spec fn read_spec(self, address: u16) -> u8 {
        if 0x8000 <= address < 0xA000 {
            self.video_ram[address - 0x8000]
        } else if 0xFE00 <= address < 0xFEA0 {
            self.object_attribute_memory[address - 0xFE00]
        } else if address == 0xFF40 {
            self.lcdc
        } else if address == 0xFF41 {
            self.stat
        } else if address == 0xFF42 {
            self.scy
        } else if address == 0xFF43 {
            self.scx
        } else if address == 0xFF44 {
            self.ly
        } else if address == 0xFF45 {
            self.lyc
        } else if address == 0xFF46 {
            0
        } else if address == 0xFF47 {
            self.bgp
        } else if address == 0xFF48 {
            self.obp0
        } else if address == 0xFF49 {
            self.obp1
        } else if address == 0xFF4A {
            self.wy
        } else {
            self.wx
        }
    }

    /// A write to STAT keeps only its upper six bits (the mode bits become 0); a write to LY
    /// is ignored.
    pub open spec fn write_spec(self, address: u16, value: u8) -> GraphicsView {
        if 0x8000 <= address < 0xA000 {
            GraphicsView { video_ram: self.video_ram.update(address - 0x8000, value), ..self }
        } else if 0xFE00 <= address < 0xFEA0 {
            GraphicsView {
                object_attribute_memory: self.object_attribute_memory.update(address - 0xFE00, value),
                ..self
            }
        } else if address == 0xFF40 {
            GraphicsView { lcdc: value, ..self }
        } else if address == 0xFF41 {
            GraphicsView { stat: value & 0b11111100, ..self }
        } else if address == 0xFF42 {
            GraphicsView { scy: value, ..self }
        } else if address == 0xFF43 {
            GraphicsView { scx: value, ..self }
        } else if address == 0xFF44 {
            self
        } else if address == 0xFF45 {
            GraphicsView { lyc: value, ..self }
        } else if address == 0xFF47 {
            GraphicsView { bgp: value, ..self }
        } else if address == 0xFF48 {
            GraphicsView { obp0: value, ..self }
        } else if address == 0xFF49 {
            GraphicsView { obp1: value, ..self }
        } else if address == 0xFF4A {
            GraphicsView { wy: value, ..self }
        } else {
            GraphicsView { wx: value, ..self }
        }
    }

    /// When the window's column is reached with the window enabled (LCDC bit 5), the window
    /// becomes active.
    pub open spec fn window_step(self) -> GraphicsView {
        if self.counter == self.wx && (self.lcdc >> 5) & 1 == 1 {
            GraphicsView {
                window_row: ((self.window_row + 1) % 256) as u8,
                window_active: true,
                ..self
            }
        } else {
            self
        }
    }

    /// The colour of the background (or window) at the current pixel: the tile map is chosen by
    /// LCDC bit 3 (bit 6 once the window is active), the tile data area by LCDC bit 4, and the
    /// colour is looked up in BGP.
    pub open spec fn background_value(self) -> u8 {
        let y = (self.ly + self.scy) % 256;
        let x = (self.x + self.scx) % 256;
        let tile_y = y / 8;
        let tile_row = y % 8;
        let tile_x = x / 8;
        let tile_column = x % 8;
        let map_bit = if self.window_active { 6u8 } else { 3u8 };
        let map = if (self.lcdc >> map_bit) & 1 == 1 { 0x1C00int } else { 0x1800int };
        let tile_index = self.video_ram[map + tile_x + tile_y * 32];
        let tile = if (self.lcdc >> 4u8) & 1 == 1 {
            tile_index * 16
        } else {
            0x1000 + signed_byte(tile_index) * 16
        };
        let row = tile + tile_row * 2;
        let low = tile_bit(self.video_ram[row], tile_column);
        let high = tile_bit(self.video_ram[row + 1], tile_column);
        let palette_index = high * 2 + low;
        (self.bgp >> ((palette_index * 2) as u8)) & 0b11
    }

    /// The colour index of object `index` at the current pixel (0 is transparent); bit 6 of its
    /// flags flips it vertically and bit 5 horizontally.
    pub open spec fn object_value(self, index: u8) -> u8 {
        let y = self.object_attribute_memory[index * 4];
        let x = self.object_attribute_memory[index * 4 + 1];
        let tile_index = self.object_attribute_memory[index * 4 + 2];
        let flags = self.object_attribute_memory[index * 4 + 3];
        let row0 = (self.ly + 16 - y) % 8;
        let row = if (flags >> 6u8) & 1 == 1 { 7 - row0 } else { row0 };
        let column0 = (self.x + 8 - x) % 8;
        let column = if (flags >> 5u8) & 1 == 1 { 7 - column0 } else { column0 };
        let address = tile_index * 16 + row * 2;
        let low = tile_bit(self.video_ram[address], column);
        let high = tile_bit(self.video_ram[address + 1], column);
        (high * 2 + low) as u8
    }

    /// Object `index` covers the current pixel.
    pub open spec fn object_covers(self, index: u8) -> bool {
        let x = self.object_attribute_memory[index * 4 + 1];
        self.x + 8 >= x && self.x < x
    }

    /// The colour after the first `n` objects of the line are laid over `base`: each object that
    /// covers the pixel and is not transparent there replaces the colour.
    pub open spec fn objects_value(self, n: nat, base: u8) -> u8
        decreases n,
    {
        if n == 0 {
            base
        } else {
            let value = self.objects_value((n - 1) as nat, base);
            let index = self.overlapping_object_indexes[n - 1];
            if self.object_covers(index) && self.object_value(index) != 0 {
                self.object_value(index)
            } else {
                value
            }
        }
    }

    /// Draws the current pixel: 0 when the background is disabled (LCDC bit 0), else the
    /// background colour with the line's objects laid over it.
    pub open spec fn draw_spec(self) -> GraphicsView {
        let g = self.window_step();
        let index = g.x + g.ly * 160;
        if g.lcdc & 1 == 0 {
            GraphicsView { pixels: g.pixels.update(index, 0), ..g }
        } else {
            let value = g.objects_value(g.overlapping_object_indexes.len(), g.background_value());
            GraphicsView { pixels: g.pixels.update(index, value), ..g }
        }
    }

    /// The height of objects: 16 when LCDC bit 2 is set, else 8.
    pub open spec fn object_height(self) -> u8 {
        if (self.lcdc >> 2u8) & 1 == 1 {
            16
        } else {
            8
        }
    }

    /// Object `i` covers the current line (its top line is at `y - 16`, modulo 256).
    pub open spec fn object_on_line(self, i: int) -> bool {
        let y = self.object_attribute_memory[i * 4];
        self.ly + 16 >= y && self.ly + 16 < (y + self.object_height()) % 256
    }

    /// The objects among the first `n` that cover the current line, in order.
    pub open spec fn objects_on_line(self, n: nat) -> Seq<u8>
        decreases n,
    {
        if n == 0 {
            Seq::empty()
        } else if self.object_on_line(n - 1) {
            self.objects_on_line((n - 1) as nat).push((n - 1) as u8)
        } else {
            self.objects_on_line((n - 1) as nat)
        }
    }

    /// The work of one dot at the start of the line: the window column counter restarts and
    /// the window is checked against the line.
    pub open spec fn line_start_spec(self) -> GraphicsView {
        if self.dot_count == 0 {
            GraphicsView {
                counter: 0,
                y_condition: if self.wy == self.ly { true } else { self.y_condition },
                window_active: false,
                ..self
            }
        } else {
            self
        }
    }

    /// The work of one dot on a visible line: object search at dot 0 (mode 2), start of
    /// drawing at dot 80 (mode 3), then one pixel per dot once the penalty is paid, and the
    /// horizontal blank (mode 0) after the last pixel.
    pub open spec fn visible_line_spec(self) -> GraphicsView {
        let g = if self.dot_count == 0 {
            GraphicsView {
                penalty: 0,
                overlapping_object_indexes: self.objects_on_line(40),
                ..self.with_mode(2)
            }
        } else if self.dot_count == 80 {
            GraphicsView {
                counter: (self.counter + 7) as u8,
                penalty: (self.penalty + 12 + self.scx % 8) as u16,
                ..self.with_mode(3)
            }
        } else {
            self
        };
        if g.mode() == 3 && g.penalty == 0 {
            let drawn = g.draw_spec();
            if drawn.x == 159 {
                drawn.with_mode(0)
            } else {
                GraphicsView { x: (drawn.x + 1) as u8, ..drawn }
            }
        } else {
            g
        }
    }

    /// One dot: returns the new state and whether the vertical blank interrupt is requested
    /// (when line 144 begins). LY advances every 456 dots and wraps after 153; STAT bit 2 tells
    /// whether LY equals LYC.
    pub open spec fn cycle_spec(self) -> (GraphicsView, bool) {
        let g1 = self.line_start_spec();
        let g2 = if g1.ly < 144 {
            g1.visible_line_spec()
        } else if g1.ly == 144 && g1.dot_count == 0 {
            GraphicsView { y_condition: false, ..g1.with_mode(1) }
        } else {
            g1
        };
        g2.end_dot_spec()
    }

    /// The end of a dot: the dot counter and the penalty advance, a new line begins after dot
    /// 455 (requesting the vertical blank interrupt when it is line 144), and STAT bit 2 is
    /// set exactly when LY equals LYC.
    pub open spec fn end_dot_spec(self) -> (GraphicsView, bool) {
        let g3 = GraphicsView {
            dot_count: (self.dot_count + 1) as u16,
            penalty: if self.penalty > 0 { (self.penalty - 1) as u16 } else { 0 },
            ..self
        };
        let g4 = if g3.dot_count == 456 {
            GraphicsView { dot_count: 0, ly: ((g3.ly + 1) % 154) as u8, x: 0, ..g3 }
        } else {
            g3
        };
        let interrupt = g3.dot_count == 456 && g4.ly == 144;
        let g5 = if g4.lyc == g4.ly {
            GraphicsView { stat: g4.stat | 0b100, ..g4 }
        } else {
            GraphicsView { stat: g4.stat & 0b11111011, ..g4 }
        };
        (g5, interrupt)
    }
}

/// After every dot, STAT bit 2 tells whether LY equals LYC; LY stays below 154; and the vertical
/// blank interrupt is requested exactly at the end of the last dot of line 143.
pub proof fn lemma_cycle_facts(g: GraphicsView)
    requires
        g.inv(),
    ensures
        ({
            let (after, interrupt) = g.cycle_spec();
            &&& (after.stat & 0b100 != 0) == (after.lyc == after.ly)
            &&& after.ly < 154
            &&& interrupt == (g.dot_count == 455 && g.ly == 143)
        }),
{
    assert(forall|s: u8| #![auto] (s | 0b100) & 0b100 != 0 && (s & 0b11111011) & 0b100 == 0)
        by (bit_vector);
}

/// The background colour and the colour after objects are laid over a shade are shades.
proof fn lemma_colours_are_shades(g: GraphicsView, n: nat, base: u8)
    requires
        base < 4,
    ensures
        g.background_value() < 4,
        g.objects_value(n, base) < 4,
    decreases n,
{
    broadcast use crate::machine::bits::lemma_mask_bound_u8;
    if n > 0 {
        lemma_colours_are_shades(g, (n - 1) as nat, base);
        let index = g.overlapping_object_indexes[n - 1];
        let y = g.object_attribute_memory[index * 4];
        let x = g.object_attribute_memory[index * 4 + 1];
        let tile_index = g.object_attribute_memory[index * 4 + 2];
        let flags = g.object_attribute_memory[index * 4 + 3];
        let row0 = (g.ly + 16 - y) % 8;
        let row = if (flags >> 6u8) & 1 == 1 { 7 - row0 } else { row0 };
        let column0 = (g.x + 8 - x) % 8;
        let column = if (flags >> 5u8) & 1 == 1 { 7 - column0 } else { column0 };
        let address = tile_index * 16 + row * 2;
        let low_byte = g.video_ram[address];
        let high_byte = g.video_ram[address + 1];
        assert(tile_bit(low_byte, column) <= 1);
        assert(tile_bit(high_byte, column) <= 1);
    }
}

/// Drawing a pixel on a visible line changes only the pixel at the current position, to a shade
/// from 0 to 3; besides the pixels, only the window row and the window flag may change.
pub proof fn lemma_draw_changes_one_pixel(g: GraphicsView)
    requires
        g.shape_ok(),
        g.ly < 144,
    ensures
        ({
            let after = g.draw_spec();
            let index = g.x + g.ly * 160;
            &&& 0 <= index < 23040
            &&& after.pixels.len() == 23040
            &&& after.pixels[index] <= 3
            &&& forall|i: int| 0 <= i < 23040 && i != index ==> #[trigger] after.pixels[i] == g.pixels[i]
            &&& after == (GraphicsView {
                pixels: after.pixels,
                window_row: after.window_row,
                window_active: after.window_active,
                ..g
            })
        }),
{
    let w = g.window_step();
    lemma_colours_are_shades(w, 0, 0);
    lemma_colours_are_shades(w, w.overlapping_object_indexes.len(), w.background_value());
}

/// The colour of object `index` at the current pixel comes from the screen column `c` within
/// the object, `(x + 8 - X) mod 8` for its X position: without horizontal flip (bit 5 of its
/// flags clear) it is the tile's pixel `c`, held in bit `7 - c` of the row's two bytes (the
/// leftmost pixel is bit 7); with the flip it is the mirrored pixel `7 - c`, held in bit `c`.
/// The low byte gives bit 0 of the colour, the high byte bit 1.
pub proof fn lemma_object_horizontal_flip(g: GraphicsView, index: u8)
    ensures
        ({
            let base = index as int * 4;
            let y = g.object_attribute_memory[base];
            let x = g.object_attribute_memory[base + 1];
            let tile = g.object_attribute_memory[base + 2];
            let flags = g.object_attribute_memory[base + 3];
            let row0 = (g.ly + 16 - y) % 8;
            let row = if (flags >> 6u8) & 1 == 1 { 7 - row0 } else { row0 };
            let low = g.video_ram[tile * 16 + row * 2];
            let high = g.video_ram[tile * 16 + row * 2 + 1];
            let c = (g.x + 8 - x) % 8;
            let bit: u8 = if (flags >> 5u8) & 1 == 1 { c as u8 } else { (7 - c) as u8 };
            g.object_value(index) == ((high >> bit) & 1) * 2 + ((low >> bit) & 1)
        }),
{
    broadcast use crate::machine::bits::lemma_mask_bound_u8;
}

/// A write to LY is ignored, and a write to STAT leaves the mode bits at 0.
pub proof fn lemma_register_writes(g: GraphicsView, value: u8)
    ensures
        g.write_spec(0xFF44, value) == g,
        g.write_spec(0xFF41, value).mode() == 0,
{
    assert((value & 0b11111100) & 0b11 == 0) by (bit_vector);
}

/// Reading video RAM or object attribute memory gives back the byte last written there.
pub proof fn lemma_memory_read_after_write(g: GraphicsView, address: u16, value: u8)
    requires
        g.inv(),
        0x8000 <= address < 0xA000 || 0xFE00 <= address < 0xFEA0,
    ensures
        g.write_spec(address, value).read_spec(address) == value,
{
}

impl View for Graphics {
    type V = GraphicsView;

    closed spec fn view(&self) -> GraphicsView {
        GraphicsView {
            dot_count: self.dot_count,
            pixels: self.pixels@,
            video_ram: self.video_ram@,
            object_attribute_memory: self.object_attribute_memory@,
            lcdc: self.lcdc,
            stat: self.stat,
            scy: self.scy,
            scx: self.scx,
            ly: self.ly,
            lyc: self.lyc,
            bgp: self.bgp,
            obp0: self.obp0,
            obp1: self.obp1,
            wy: self.wy,
            wx: self.wx,
            x: self.x,
            y_condition: self.y_condition,
            counter: self.counter,
            window_active: self.window_active,
            window_row: self.window_row,
            penalty: self.penalty,
            overlapping_object_indexes: self.overlapping_object_indexes@,
        }
    }
}

/// The objects found on a line are among the first `n`, at most `n` of them.
pub proof fn lemma_objects_on_line_bounds(g: GraphicsView, n: nat)
    ensures
        g.objects_on_line(n).len() <= n,
        forall|i: int| 0 <= i < g.objects_on_line(n).len() ==> #[trigger] g.objects_on_line(n)[i] < n,
    decreases n,
{
    if n > 0 {
        lemma_objects_on_line_bounds(g, (n - 1) as nat);
    }
}

/// The objects found on a line depend only on the line, the object height and the object
/// attribute memory.
pub proof fn lemma_objects_on_line_frame(g1: GraphicsView, g2: GraphicsView, n: nat)
    requires
        g1.ly == g2.ly,
        g1.lcdc == g2.lcdc,
        g1.object_attribute_memory == g2.object_attribute_memory,
    ensures
        g1.objects_on_line(n) == g2.objects_on_line(n),
    decreases n,
{
    if n > 0 {
        lemma_objects_on_line_frame(g1, g2, (n - 1) as nat);
    }
}

/// Reads a tile row byte as a signed offset.
pub fn sign_extend(value: u8) -> (offset: i16)
    ensures
        offset as int == signed_byte(value),
{
    if value < 128 {
        value as i16
    } else {
        value as i16 - 256
    }
}

/// Bit `7 - bit` of `byte`, the colour bit of pixel `bit` of a tile row.
fn pixel_bit(byte: u8, bit: u8) -> (value: u8)
    requires
        bit < 8,
    ensures
        value == tile_bit(byte, bit as int),
        value <= 1,
{
    let shift: u8 = 8 - bit - 1;
    assert((byte >> shift) & 1 <= 1) by (bit_vector);
    (byte >> shift) & 1
}

impl Graphics {
    pub fn new() -> (graphics: Self)
        ensures
            graphics@ == GraphicsView::initial(),
            graphics@.inv(),
    {
        let graphics = Self {
            dot_count: 0,
            pixels: [0u8; 23040],
            video_ram: [0u8; 8192],
            object_attribute_memory: [0u8; 160],
            lcdc: 0,
            stat: 0,
            scy: 0,
            scx: 0,
            ly: 0,
            lyc: 0,
            bgp: 0,
            obp0: 0,
            obp1: 0,
            wy: 0,
            wx: 0,
            x: 0,
            y_condition: false,
            counter: 0,
            window_active: false,
            window_row: 0,
            penalty: 0,
            overlapping_object_indexes: Vec::new(),
        };
        assert(graphics@ =~= GraphicsView::initial());
        graphics
    }

    pub fn read(&self, address: u16) -> (value: u8)
        requires
            self@.inv(),
            is_graphics_read_address(address),
        ensures
            value == self@.read_spec(address),
    {
        match address {
            0x8000..0xA000 => self.video_ram[(address - 0x8000) as usize],
            0xFE00..0xFEA0 => self.object_attribute_memory[(address - 0xFE00) as usize],
            0xFF40 => self.lcdc,
            0xFF41 => self.stat,
            0xFF42 => self.scy,
            0xFF43 => self.scx,
            0xFF44 => self.ly,
            0xFF45 => self.lyc,
            0xFF46 => 0,
            0xFF47 => self.bgp,
            0xFF48 => self.obp0,
            0xFF49 => self.obp1,
            0xFF4A => self.wy,
            _ => self.wx,
        }
    }

    pub fn write(&mut self, address: u16, value: u8)
        requires
            old(self)@.inv(),
            is_graphics_write_address(address),
        ensures
            final(self)@ == old(self)@.write_spec(address, value),
            final(self)@.inv(),
    {
        match address {
            0x8000..0xA000 => self.video_ram[(address - 0x8000) as usize] = value,
            0xFE00..0xFEA0 => self.object_attribute_memory[(address - 0xFE00) as usize] = value,
            0xFF40 => self.lcdc = value,
            0xFF41 => self.stat = value & 0b11111100,
            0xFF42 => self.scy = value,
            0xFF43 => self.scx = value,
            0xFF44 => (),
            0xFF45 => self.lyc = value,
            0xFF47 => self.bgp = value,
            0xFF48 => self.obp0 = value,
            0xFF49 => self.obp1 = value,
            0xFF4A => self.wy = value,
            _ => self.wx = value,
        }
    }

    pub fn get_mode(&self) -> (mode: u8)
        ensures
            mode == self@.mode(),
    {
        self.stat & 0b00000011
    }

    fn set_mode(&mut self, mode: u8)
        ensures
            final(self)@ == old(self)@.with_mode(mode),
    {
        self.stat = (self.stat & 0b11111100) | (mode & 0b00000011);
    }

    /// The colour index of object `index` at the current pixel.
    fn object_pixel(&self, index: u8) -> (value: u8)
        requires
            self@.shape_ok(),
            index < 40,
            self@.ly < 144,
            self@.object_covers(index),
        ensures
            value == self@.object_value(index),
            value < 4,
    {
        let y = self.object_attribute_memory[(index as usize) * 4];
        let x = self.object_attribute_memory[(index as usize) * 4 + 1];
        let tile_index = self.object_attribute_memory[(index as usize) * 4 + 2];
        let flags = self.object_attribute_memory[(index as usize) * 4 + 3];

        let tile_address_offset = (tile_index as u16) * 16;

        let row0 = (self.ly + 16).wrapping_sub(y) % 8;
        assert(row0 == (self@.ly + 16 - y) % 8);
        let tile_row = if (flags >> 6) & 1 == 1 {
            7 - row0
        } else {
            row0
        };

        let column0 = (self.x + 8 - x) % 8;
        let tile_column = if (flags >> 5) & 1 == 1 {
            7 - column0
        } else {
            column0
        };

        let tile_row_address_offset = tile_address_offset + (tile_row as u16) * 2;

        let low = pixel_bit(self.video_ram[tile_row_address_offset as usize], tile_column);
        let high = pixel_bit(self.video_ram[(tile_row_address_offset + 1) as usize], tile_column);
        assert((high << 1) | low == high * 2 + low) by (bit_vector)
            requires
                high <= 1,
                low <= 1,
        ;
        (high << 1) | low
    }

    /// The colour index of the background (or window) at the current pixel.
    fn background_pixel(&self) -> (value: u8)
        requires
            self@.shape_ok(),
        ensures
            value == self@.background_value(),
            value < 4,
    {
        let tile_y = self.ly.wrapping_add(self.scy) / 8;
        let tile_row = self.ly.wrapping_add(self.scy) % 8;

        let tile_x = self.x.wrapping_add(self.scx) / 8;
        let tile_column = self.x.wrapping_add(self.scx) % 8;

        let tile_map_address_offset: u16 = if !self.window_active {
            if (self.lcdc >> 3) & 1 == 1 {
                0x1C00
            } else {
                0x1800
            }
        } else {
            if (self.lcdc >> 6) & 1 == 1 {
                0x1C00
            } else {
                0x1800
            }
        };

        let tile_index = self.video_ram[(tile_map_address_offset + (tile_x as u16) + (tile_y as u16)
            * 32) as usize];

        let tile_address_offset: u16 = if (self.lcdc >> 4) & 1 == 1 {
            (tile_index as u16) * 16
        } else {
            0x1000u16.wrapping_add_signed(sign_extend(tile_index) * 16)
        };

        let tile_row_address_offset = tile_address_offset + (tile_row as u16) * 2;

        let low = pixel_bit(self.video_ram[tile_row_address_offset as usize], tile_column);
        let high = pixel_bit(self.video_ram[(tile_row_address_offset + 1) as usize], tile_column);
        let palette_index = (high << 1) | low;
        assert((high << 1) | low == high * 2 + low) by (bit_vector)
            requires
                high <= 1,
                low <= 1,
        ;

        let value = (self.bgp >> (palette_index * 2)) & 0b11;
        proof {
            crate::machine::bits::lemma_mask_bound_u8(self.bgp >> (palette_index * 2), 0b11);
        }
        value
    }

    fn draw_pixel(&mut self)
        requires
            old(self)@.shape_ok(),
            old(self)@.ly < 144,
        ensures
            final(self)@ == old(self)@.draw_spec(),
            final(self)@.shape_ok(),
    {
        if self.counter == self.wx && (self.lcdc >> 5) & 1 == 1 {
            self.window_row = self.window_row.wrapping_add(1);
            self.window_active = true;
        }

        let pixel_index = ((self.x as u16) + (self.ly as u16) * 160) as usize;

        if self.lcdc & 1 == 0 {
            self.pixels[pixel_index] = 0;
            return;
        }

        let mut value = self.background_pixel();

        let mut i: usize = 0;
        while i < self.overlapping_object_indexes.len()
            invariant
                self@.shape_ok(),
                self@.ly < 144,
                0 <= i <= self@.overlapping_object_indexes.len(),
                value == self@.objects_value(i as nat, self@.background_value()),
                value < 4,
            decreases self@.overlapping_object_indexes.len() - i,
        {
            let index = self.overlapping_object_indexes[i];
            let x = self.object_attribute_memory[(index as usize) * 4 + 1];

            if self.x + 8 >= x && self.x < x {
                let object_value = self.object_pixel(index);

                if object_value != 0 {
                    value = object_value;
                }
            }
            i += 1;
        }

        self.pixels[pixel_index] = value;
    }

    /// The objects that cover the current line.
    fn search_objects(&mut self)
        requires
            old(self)@.inv(),
            old(self)@.ly < 144,
        ensures
            final(self)@ == (GraphicsView {
                overlapping_object_indexes: old(self)@.objects_on_line(40),
                ..old(self)@
            }),
    {
        let object_pixel_height: u8 = if (self.lcdc >> 2) & 1 == 1 {
            16
        } else {
            8
        };
        self.overlapping_object_indexes.clear();

        let mut i: usize = 0;
        while i < 40
            invariant
                0 <= i <= 40,
                self@ == (GraphicsView {
                    overlapping_object_indexes: old(self)@.objects_on_line(i as nat),
                    ..old(self)@
                }),
                old(self)@.inv(),
                old(self)@.ly < 144,
                object_pixel_height == old(self)@.object_height(),
            decreases 40 - i,
        {
            let y = self.object_attribute_memory[i * 4];

            if self.ly + 16 >= y && self.ly + 16 < y.wrapping_add(object_pixel_height) {
                self.overlapping_object_indexes.push(i as u8);
            }
            i += 1;
        }
    }

    /// The start-of-line work of a dot.
    fn start_line(&mut self)
        requires
            old(self)@.inv(),
        ensures
            final(self)@ == old(self)@.line_start_spec(),
            final(self)@.inv(),
    {
        if self.dot_count == 0 {
            self.counter = 0;

            if self.wy == self.ly {
                self.y_condition = true;
            }

            self.window_active = false;
        }
    }

    /// The work of a dot on a visible line.
    fn visible_line_dot(&mut self)
        requires
            old(self)@.inv(),
            old(self)@.ly < 144,
            old(self)@.dot_count == 0 ==> old(self)@.counter == 0,
        ensures
            final(self)@ == old(self)@.visible_line_spec(),
            final(self)@.shape_ok(),
            final(self)@.dot_count == old(self)@.dot_count,
            final(self)@.ly == old(self)@.ly,
            final(self)@.counter <= 7,
            final(self)@.penalty <= 19,
            final(self)@.dot_count < 80 ==> final(self)@.counter == 0 && final(self)@.penalty == 0,
    {
        if self.dot_count == 0 {
            self.set_mode(2);
            self.penalty = 0;
            let ghost before_search = self@;
            self.search_objects();
            proof {
                lemma_objects_on_line_bounds(old(self)@, 40);
                lemma_objects_on_line_frame(old(self)@, before_search, 40);
            }
            assert(self@ =~= GraphicsView {
                penalty: 0,
                overlapping_object_indexes: old(self)@.objects_on_line(40),
                ..old(self)@.with_mode(2)
            });
        } else if self.dot_count == 80 {
            self.counter += 7;
            self.set_mode(3);
            self.penalty += 12 + (self.scx % 8) as u16;
            assert(self@ =~= GraphicsView {
                counter: (old(self)@.counter + 7) as u8,
                penalty: (old(self)@.penalty + 12 + old(self)@.scx % 8) as u16,
                ..old(self)@.with_mode(3)
            });
        }
        assert(self@.shape_ok());

        if self.get_mode() == 3 && self.penalty == 0 {
            self.draw_pixel();

            if self.x == 159 {
                self.set_mode(0);
            } else {
                self.x += 1;
            }
        }
    }

    /// The end-of-dot work; returns whether the vertical blank interrupt is requested.
    fn end_dot(&mut self) -> (interrupt: bool)
        requires
            old(self)@.shape_ok(),
            old(self)@.counter <= 7,
            old(self)@.penalty <= 19,
            old(self)@.ly < 144 && old(self)@.dot_count < 80 ==> old(self)@.counter == 0 && old(self)@.penalty == 0,
            old(self)@.dot_count < 80 ==> old(self)@.counter == 0,
        ensures
            (final(self)@, interrupt) == old(self)@.end_dot_spec(),
            final(self)@.inv(),
    {
        let mut interrupt = false;

        self.dot_count += 1;

        if self.penalty > 0 {
            self.penalty -= 1;
        }

        if self.dot_count == 456 {
            self.dot_count -= 456;
            self.ly = (self.ly + 1) % 154;
            self.x = 0;

            if self.ly == 144 {
                interrupt = true;
            }
        }

        if self.lyc == self.ly {
            self.stat |= 0b00000100;
        } else {
            self.stat &= 0b11111011;
        }

        interrupt
    }

    /// Advances the unit by one dot; returns whether the vertical blank interrupt is requested.
    pub fn cycle(&mut self) -> (interrupt: bool)
        requires
            old(self)@.inv(),
        ensures
            (final(self)@, interrupt) == old(self)@.cycle_spec(),
            final(self)@.inv(),
    {
        self.start_line();

        if self.ly < 144 {
            self.visible_line_dot();
        } else if self.ly == 144 && self.dot_count == 0 {
            self.set_mode(1);
            self.y_condition = false;
        }

        self.end_dot()
    }

    pub fn pixels(&self) -> (pixels: [u8; 23040])
        ensures
            pixels@ == self@.pixels,
    {
        self.pixels
    }

    pub fn stat(&self) -> (stat: u8)
        ensures
            stat == self@.stat,
    {
        self.stat
    }

    pub fn lcdc(&self) -> (lcdc: u8)
        ensures
            lcdc == self@.lcdc,
    {
        self.lcdc
    }
}

} // verus!
