//! The renderer: it turns what is to be seen into a list of drawing
//! commands for the host to carry out.
//!
//! Places on the screen are fixed-point numbers; places on an image sheet
//! are whole pixels.

use crate::engine::math::{quotient, saturate, saturated};
use crate::engine::preloader::ImageHandle;
use crate::engine::tiled::TileMap;
use vstd::prelude::*;
use vstd::string::StrSliceExecFns;

verus! {

/// A colour to fill a rectangle with.
#[derive(Clone, Copy, PartialEq, Eq, Structural, Debug)]
pub enum Paint {
    /// Opaque black.
    Black,
    /// Opaque red.
    Red,
    /// Black that lets most of what is below shine through.
    Veil,
}

/// One drawing command.
#[derive(Clone, Copy, PartialEq, Eq, Structural, Debug)]
pub enum Draw {
    /// Fill the rectangle at `(x, y)` of size `w` by `h`.
    Fill { paint: Paint, x: i32, y: i32, w: i32, h: i32 },
    /// Copy the part of `image` at `(sx, sy)` of size `sw` by `sh` to the
    /// rectangle at `(dx, dy)` of size `dw` by `dh`.
    Image {
        image: ImageHandle,
        sx: i32,
        sy: i32,
        sw: i32,
        sh: i32,
        dx: i32,
        dy: i32,
        dw: i32,
        dh: i32,
    },
}

/// Records drawing commands for a canvas of a given size.
pub struct CanvasRenderer {
    pub width: i32,
    pub height: i32,
    pub commands: Vec<Draw>,
}

/// A fixed-point number rounded to the nearest whole unit, halves away
/// from zero.
pub open spec fn rounded(v: int) -> int {
    if v >= 0 {
        saturated(((v + 500) / 1000) * 1000)
    } else {
        saturated(-(((500 - v) / 1000) * 1000))
    }
}

/// The remainder of `a` by a positive `b` that goes with the quotient
/// rounded toward zero.
pub open spec fn remainder(a: int, b: int) -> int {
    a - b * quotient(a, b)
}

/// The command that copies sprite `idx`, a tile of 8 by 8 pixels on a
/// sheet 8 tiles wide, or a block of `w` by `h` such tiles starting there,
/// to the place `(x, y)` rounded to whole units, at twice the size.
pub open spec fn block_command(image: ImageHandle, idx: u8, x: int, y: int, w: u8, h: u8) -> Draw {
    Draw::Image {
        image,
        sx: (8 * (idx % 8)) as i32,
        sy: (8 * (idx / 8)) as i32,
        sw: (8 * w) as i32,
        sh: (8 * h) as i32,
        dx: rounded(x) as i32,
        dy: rounded(y) as i32,
        dw: (16000 * w) as i32,
        dh: (16000 * h) as i32,
    }
}

/// The number that a character has on the sheets: its code as a signed
/// byte.
pub open spec fn glyph_code(c: char) -> int {
    let low = (c as u32 % 256) as int;
    if low >= 128 {
        low - 256
    } else {
        low
    }
}

/// The command that draws the `k`-th character of a text in big letters:
/// glyphs of 16 by 16 pixels, 8 to a row, the first of them for the
/// character `!`, drawn at twice the size and 32 units apart.
pub open spec fn big_glyph(image: ImageHandle, x: int, y: int, c: char, k: int) -> Draw {
    let g = glyph_code(c) - 33;
    Draw::Image {
        image,
        sx: (remainder(g, 8) * 16) as i32,
        sy: (quotient(g, 8) * 16) as i32,
        sw: 16,
        sh: 16,
        dx: saturated(x + 32000 * k) as i32,
        dy: y as i32,
        dw: 32000,
        dh: 32000,
    }
}

/// The command that draws the `k`-th character of a text in small
/// digits: glyphs of 3 by 5 pixels, 18 to a row, the first of them for the
/// character `0`, drawn at twice the size and 8 units apart.
pub open spec fn small_glyph(image: ImageHandle, x: int, y: int, c: char, k: int) -> Draw {
    let g = glyph_code(c) - 48;
    Draw::Image {
        image,
        sx: (remainder(g, 18) * 3) as i32,
        sy: (quotient(g, 18) * 5) as i32,
        sw: 3,
        sh: 5,
        dx: saturated(x + 8000 * k) as i32,
        dy: y as i32,
        dw: 6000,
        dh: 10000,
    }
}

/// The number of hearts that stand for `count` health: one for every five,
/// and one for what is left over.
pub open spec fn hearts(count: int) -> int {
    if count <= 0 {
        0
    } else {
        (count + 4) / 5
    }
}

/// The command that draws the `k`-th heart of `count` health: a full
/// heart while more than five health remain from there on, else one that
/// shows what remains.
pub open spec fn heart_command(image: ImageHandle, x: int, y: int, count: int, k: int) -> Draw {
    let remaining = count - 5 * k;
    let heart = if remaining > 5 {
        0
    } else {
        5 - remaining
    };
    Draw::Image {
        image,
        sx: (heart * 6) as i32,
        sy: 5,
        sw: 6,
        sh: 5,
        dx: saturated(x + 12000 * k) as i32,
        dy: y as i32,
        dw: 12000,
        dh: 10000,
    }
}

/// The command that draws the ammunition sign.
pub open spec fn ammo_command(image: ImageHandle, x: int, y: int) -> Draw {
    Draw::Image { image, sx: 0, sy: 10, sw: 6, sh: 5, dx: x as i32, dy: y as i32, dw: 12000, dh: 10000 }
}

/// The number of tile columns or rows that are drawn: as many as the map
/// has, but no more than fit on the canvas at 8 units each.
pub open spec fn tiles_shown(extent: int, tiles: int) -> int {
    let fit = if extent < 0 {
        0
    } else {
        extent / 8000
    };
    if fit < tiles {
        fit
    } else {
        tiles
    }
}

/// The command for the tile in column `tx` and row `ty`, if there is one:
/// the ground layer's entry, counted from 1 on the sheet, at 16 units per
/// tile. An entry of 0 and a cell beyond the data are empty.
pub open spec fn tile_command(
    image: ImageHandle,
    data: Seq<u8>,
    tx: int,
    ty: int,
) -> Option<Draw> {
    let i = tx + ty * 60;
    if i < data.len() && data[i] > 0 {
        Some(
            Draw::Image {
                image,
                sx: (8 * ((data[i] - 1) % 8)) as i32,
                sy: (8 * ((data[i] - 1) / 8)) as i32,
                sw: 8,
                sh: 8,
                dx: (16000 * tx) as i32,
                dy: (16000 * ty) as i32,
                dw: 16000,
                dh: 16000,
            },
        )
    } else {
        None
    }
}

/// The commands for the first `ty` rows of column `tx`.
pub open spec fn column_commands(image: ImageHandle, data: Seq<u8>, tx: int, ty: int) -> Seq<Draw>
    decreases ty,
{
    if ty <= 0 {
        Seq::empty()
    } else {
        let before = column_commands(image, data, tx, ty - 1);
        match tile_command(image, data, tx, ty - 1) {
            Some(c) => before.push(c),
            None => before,
        }
    }
}

/// The commands for the first `tx` columns of a map of which `rows` rows
/// are shown, column by column.
pub open spec fn map_commands(image: ImageHandle, data: Seq<u8>, tx: int, rows: int) -> Seq<Draw>
    decreases tx,
{
    if tx <= 0 {
        Seq::empty()
    } else {
        map_commands(image, data, tx - 1, rows) + column_commands(image, data, tx - 1, rows)
    }
}

/// Rounds a fixed-point number to the nearest whole unit.
pub fn round_units(v: i32) -> (r: i32)
    ensures
        r == rounded(v as int),
{
    if v >= 0 {
        saturate(((v as i64 + 500) / 1000) * 1000)
    } else {
        saturate(-(((500 - v as i64) / 1000) * 1000))
    }
}

/// Computes the number that a character has on the sheets.
pub fn code_of(c: char) -> (g: i32)
    ensures
        g == glyph_code(c),
        -128 <= g < 128,
{
    let low: i32 = (c as u32 % 256) as i32;
    if low >= 128 {
        low - 256
    } else {
        low
    }
}

/// Adds `step * k` to `x`, saturating.
pub fn stepped(x: i32, step: i32, k: usize) -> (r: i32)
    ensures
        r == saturated(x + step * k),
{
    let wide_step: i128 = step as i128;
    let wide_k: i128 = k as i128;
    assert(-0x8000_0000_0000_0000_0000_0000 <= wide_step * wide_k
        <= 0x8000_0000_0000_0000_0000_0000) by (nonlinear_arith)
        requires
            -0x8000_0000 <= wide_step <= 0x8000_0000,
            0 <= wide_k <= 0x1_0000_0000_0000_0000,
    ;
    let v: i128 = x as i128 + wide_step * wide_k;
    if v < -0x8000_0000 {
        -0x8000_0000
    } else if v > 0x7fff_ffff {
        0x7fff_ffff
    } else {
        v as i32
    }
}

/// The character of a digit.
pub open spec fn digit_char(d: int) -> char {
    (48 + d) as char
}

/// The decimal digits of a natural number.
pub open spec fn digits(n: int) -> Seq<char>
    decreases n,
{
    if n < 10 {
        seq![digit_char(n)]
    } else {
        digits(n / 10).push(digit_char(n % 10))
    }
}

/// A whole number written in decimal, with a minus sign if negative.
pub open spec fn decimal_text(v: int) -> Seq<char> {
    if v < 0 {
        seq!['-'] + digits(-v)
    } else {
        digits(v)
    }
}

/// The commands that write a text in small digits, starting at `(x, y)`.
pub open spec fn small_text(image: ImageHandle, x: int, y: int, text: Seq<char>) -> Seq<Draw> {
    Seq::new(text.len(), |k: int| small_glyph(image, x, y, text[k], k))
}

/// The commands that write a text in big letters, starting at `(x, y)`.
pub open spec fn big_text(image: ImageHandle, x: int, y: int, text: Seq<char>) -> Seq<Draw> {
    Seq::new(text.len(), |k: int| big_glyph(image, x, y, text[k], k))
}

/// The commands that write a whole number in small digits.
pub open spec fn value_commands(image: ImageHandle, x: int, y: int, v: int) -> Seq<Draw> {
    small_text(image, x, y, decimal_text(v))
}

/// Writes the decimal digits of a natural number, most significant first.
pub fn push_digits(text: &mut Vec<char>, n: u32)
    ensures
        final(text)@ == old(text)@ + digits(n as int),
    decreases n,
{
    if n < 10 {
        text.push((48u8 + n as u8) as char);
        assert(text@ =~= old(text)@ + digits(n as int));
    } else {
        push_digits(text, n / 10);
        text.push((48u8 + (n % 10) as u8) as char);
        assert(text@ =~= old(text)@ + digits(n as int));
    }
}

/// Writes a whole number in decimal.
pub fn decimal(v: i32) -> (text: Vec<char>)
    ensures
        text@ == decimal_text(v as int),
{
    let mut text: Vec<char> = Vec::new();
    if v < 0 {
        text.push('-');
        push_digits(&mut text, (-(v as i64)) as u32);
    } else {
        push_digits(&mut text, v as u32);
    }
    assert(text@ =~= decimal_text(v as int));
    text
}

/// Lists the characters of a text.
pub fn chars_of(text: &str) -> (chars: Vec<char>)
    ensures
        chars@ == text@,
{
    let mut chars: Vec<char> = Vec::new();
    let n = text.unicode_len();
    let mut k: usize = 0;
    while k < n
        invariant
            k <= n,
            n == text@.len(),
            chars@ == text@.take(k as int),
        decreases n - k,
    {
        chars.push(text.get_char(k));
        assert(text@.take(k + 1) =~= text@.take(k as int).push(text@[k as int]));
        k = k + 1;
    }
    assert(text@.take(n as int) =~= text@);
    chars
}

impl CanvasRenderer {
    /// A renderer for a canvas of `width` by `height` units, with nothing
    /// recorded.
    pub fn new(width: u32, height: u32) -> (renderer: Self)
        ensures
            renderer.width == saturated(width * 1000),
            renderer.height == saturated(height * 1000),
            renderer.commands@ == Seq::<Draw>::empty(),
    {
        CanvasRenderer {
            width: saturate(width as i64 * 1000),
            height: saturate(height as i64 * 1000),
            commands: Vec::new(),
        }
    }

    /// Hands out the commands recorded so far and starts over.
    pub fn take(&mut self) -> (commands: Vec<Draw>)
        ensures
            commands@ == old(self).commands@,
            final(self).commands@ == Seq::<Draw>::empty(),
            final(self).width == old(self).width,
            final(self).height == old(self).height,
    {
        let mut commands: Vec<Draw> = Vec::new();
        commands.append(&mut self.commands);
        commands
    }

    /// Paints the whole canvas black.
    pub fn clear(&mut self)
        ensures
            final(self).commands@ == old(self).commands@.push(
                Draw::Fill { paint: Paint::Black, x: 0, y: 0, w: old(self).width, h: old(self).height },
            ),
            final(self).width == old(self).width,
            final(self).height == old(self).height,
    {
        self.commands.push(
            Draw::Fill { paint: Paint::Black, x: 0, y: 0, w: self.width, h: self.height },
        );
    }

    /// Draws sprite `idx` at `(x, y)`.
    pub fn draw_sprite(&mut self, image: &ImageHandle, idx: u8, x: i32, y: i32)
        ensures
            final(self).commands@ == old(self).commands@.push(
                block_command(*image, idx, x as int, y as int, 1, 1),
            ),
            final(self).width == old(self).width,
            final(self).height == old(self).height,
    {
        self.draw_block(image, idx, x, y, 1, 1);
    }

    /// Draws the block of `w` by `h` sprites that starts at sprite `idx`
    /// at `(x, y)`.
    pub fn draw_block(&mut self, image: &ImageHandle, idx: u8, x: i32, y: i32, w: u8, h: u8)
        ensures
            final(self).commands@ == old(self).commands@.push(
                block_command(*image, idx, x as int, y as int, w, h),
            ),
            final(self).width == old(self).width,
            final(self).height == old(self).height,
    {
        self.commands.push(
            Draw::Image {
                image: *image,
                sx: 8 * (idx % 8) as i32,
                sy: 8 * (idx / 8) as i32,
                sw: 8 * w as i32,
                sh: 8 * h as i32,
                dx: round_units(x),
                dy: round_units(y),
                dw: 16000 * w as i32,
                dh: 16000 * h as i32,
            },
        );
    }

    /// Draws the ground layer of a map, as far as it fits on the canvas.
    pub fn draw_map(&mut self, map: &TileMap, tileset: &ImageHandle)
        requires
            map.playable(),
        ensures
            final(self).commands@ == old(self).commands@ + map_commands(
                *tileset,
                map.ground(),
                tiles_shown(old(self).width as int, map.width as int),
                tiles_shown(old(self).height as int, map.height as int),
            ),
            final(self).width == old(self).width,
            final(self).height == old(self).height,
    {
        let ghost before = self.commands@;
        let fit_x: i32 = if self.width < 0 {
            0
        } else {
            self.width / 8000
        };
        let fit_y: i32 = if self.height < 0 {
            0
        } else {
            self.height / 8000
        };
        let tx_max: usize = if fit_x < map.width as i32 {
            fit_x as usize
        } else {
            map.width as usize
        };
        let ty_max: usize = if fit_y < map.height as i32 {
            fit_y as usize
        } else {
            map.height as usize
        };
        let data = &map.layers[0].data;
        let mut tx: usize = 0;
        assert(self.commands@ =~= before + map_commands(*tileset, data@, 0, ty_max as int));
        while tx < tx_max
            invariant
                tx <= tx_max <= 255,
                ty_max <= 255,
                data@ == map.ground(),
                self.width == old(self).width,
                self.height == old(self).height,
                self.commands@ == before + map_commands(*tileset, data@, tx as int, ty_max as int),
            decreases tx_max - tx,
        {
            let ghost so_far = self.commands@;
            let mut ty: usize = 0;
            assert(self.commands@ =~= so_far + column_commands(*tileset, data@, tx as int, 0));
            while ty < ty_max
                invariant
                    ty <= ty_max <= 255,
                    tx < 255,
                    self.width == old(self).width,
                    self.height == old(self).height,
                    self.commands@ == so_far + column_commands(
                        *tileset,
                        data@,
                        tx as int,
                        ty as int,
                    ),
                decreases ty_max - ty,
            {
                let i = tx + ty * 60;
                if i < data.len() && data[i] > 0 {
                    let t: u8 = data[i] - 1;
                    self.commands.push(
                        Draw::Image {
                            image: *tileset,
                            sx: 8 * (t % 8) as i32,
                            sy: 8 * (t / 8) as i32,
                            sw: 8,
                            sh: 8,
                            dx: 16000 * tx as i32,
                            dy: 16000 * ty as i32,
                            dw: 16000,
                            dh: 16000,
                        },
                    );
                }
                ty = ty + 1;
                assert(self.commands@ =~= so_far + column_commands(
                    *tileset,
                    data@,
                    tx as int,
                    ty as int,
                ));
            }
            tx = tx + 1;
            assert(self.commands@ =~= before + map_commands(
                *tileset,
                data@,
                tx as int,
                ty_max as int,
            ));
        }
    }

    /// Fills a rectangle.
    pub fn draw_rect(&mut self, paint: Paint, x: i32, y: i32, w: i32, h: i32)
        ensures
            final(self).commands@ == old(self).commands@.push(Draw::Fill { paint, x, y, w, h }),
            final(self).width == old(self).width,
            final(self).height == old(self).height,
    {
        self.commands.push(Draw::Fill { paint, x, y, w, h });
    }

    /// Writes a text in big letters, starting at `(x, y)`.
    pub fn draw_big_text(&mut self, image: &ImageHandle, x: i32, y: i32, text: &str)
        ensures
            final(self).commands@ == old(self).commands@ + big_text(
                *image,
                x as int,
                y as int,
                text@,
            ),
            final(self).width == old(self).width,
            final(self).height == old(self).height,
    {
        let ghost before = self.commands@;
        let chars = chars_of(text);
        let n = chars.len();
        let mut k: usize = 0;
        while k < n
            invariant
                k <= n,
                n == chars@.len(),
                self.width == old(self).width,
                self.height == old(self).height,
                self.commands@.len() == before.len() + k,
                forall|j: int| 0 <= j < before.len() ==> self.commands@[j] == before[j],
                forall|j: int|
                    0 <= j < k ==> self.commands@[before.len() + j] == big_glyph(
                        *image,
                        x as int,
                        y as int,
                        chars@[j],
                        j,
                    ),
            decreases n - k,
        {
            let g = code_of(chars[k]) - 33;
            self.commands.push(
                Draw::Image {
                    image: *image,
                    sx: (g % 8) * 16,
                    sy: (g / 8) * 16,
                    sw: 16,
                    sh: 16,
                    dx: stepped(x, 32000, k),
                    dy: y,
                    dw: 32000,
                    dh: 32000,
                },
            );
            k = k + 1;
        }
        assert(self.commands@ =~= before + big_text(*image, x as int, y as int, text@));
    }

    /// Writes the characters of a text in small digits, starting at
    /// `(x, y)`.
    pub fn draw_small(&mut self, image: &ImageHandle, x: i32, y: i32, chars: &Vec<char>)
        ensures
            final(self).commands@ == old(self).commands@ + small_text(
                *image,
                x as int,
                y as int,
                chars@,
            ),
            final(self).width == old(self).width,
            final(self).height == old(self).height,
    {
        let ghost before = self.commands@;
        let n = chars.len();
        let mut k: usize = 0;
        while k < n
            invariant
                k <= n,
                n == chars@.len(),
                self.width == old(self).width,
                self.height == old(self).height,
                self.commands@.len() == before.len() + k,
                forall|j: int| 0 <= j < before.len() ==> self.commands@[j] == before[j],
                forall|j: int|
                    0 <= j < k ==> self.commands@[before.len() + j] == small_glyph(
                        *image,
                        x as int,
                        y as int,
                        chars@[j],
                        j,
                    ),
            decreases n - k,
        {
            let g = code_of(chars[k]) - 48;
            self.commands.push(
                Draw::Image {
                    image: *image,
                    sx: (g % 18) * 3,
                    sy: (g / 18) * 5,
                    sw: 3,
                    sh: 5,
                    dx: stepped(x, 8000, k),
                    dy: y,
                    dw: 6000,
                    dh: 10000,
                },
            );
            k = k + 1;
        }
        assert(self.commands@ =~= before + small_text(*image, x as int, y as int, chars@));
    }

    /// Writes a number in small digits, starting at `(x, y)`.
    pub fn draw_numbers(&mut self, image: &ImageHandle, x: i32, y: i32, text: &str)
        ensures
            final(self).commands@ == old(self).commands@ + small_text(
                *image,
                x as int,
                y as int,
                text@,
            ),
            final(self).width == old(self).width,
            final(self).height == old(self).height,
    {
        let chars = chars_of(text);
        self.draw_small(image, x, y, &chars);
    }

    /// Writes a whole number in small digits, starting at `(x, y)`: the
    /// same as writing its decimal text with `draw_numbers`.
    pub fn draw_value(&mut self, image: &ImageHandle, x: i32, y: i32, v: i32)
        ensures
            final(self).commands@ == old(self).commands@ + value_commands(
                *image,
                x as int,
                y as int,
                v as int,
            ),
            final(self).width == old(self).width,
            final(self).height == old(self).height,
    {
        let chars = decimal(v);
        self.draw_small(image, x, y, &chars);
    }

    /// Draws the hearts that stand for `count` health, starting at
    /// `(x, y)`.
    pub fn draw_hearts(&mut self, numbers: &ImageHandle, x: i32, y: i32, count: i32)
        ensures
            final(self).commands@ == old(self).commands@ + Seq::new(
                hearts(count as int) as nat,
                |k: int| heart_command(*numbers, x as int, y as int, count as int, k),
            ),
            final(self).width == old(self).width,
            final(self).height == old(self).height,
    {
        let ghost before = self.commands@;
        let mut remainder: i32 = count;
        let mut i: usize = 0;
        while remainder > 0
            invariant
                self.width == old(self).width,
                self.height == old(self).height,
                0 <= i <= hearts(count as int),
                remainder == count - 5 * i,
                remainder > 0 <==> i < hearts(count as int),
                self.commands@.len() == before.len() + i,
                forall|j: int| 0 <= j < before.len() ==> self.commands@[j] == before[j],
                forall|j: int|
                    0 <= j < i ==> self.commands@[before.len() + j] == heart_command(
                        *numbers,
                        x as int,
                        y as int,
                        count as int,
                        j,
                    ),
            decreases hearts(count as int) - i,
        {
            let heart: i32 = if remainder > 5 {
                0
            } else {
                5 - remainder
            };
            self.commands.push(
                Draw::Image {
                    image: *numbers,
                    sx: heart * 6,
                    sy: 5,
                    sw: 6,
                    sh: 5,
                    dx: stepped(x, 12000, i),
                    dy: y,
                    dw: 12000,
                    dh: 10000,
                },
            );
            i = i + 1;
            remainder = remainder - 5;
        }
        assert(self.commands@ =~= before + Seq::new(
            hearts(count as int) as nat,
            |k: int| heart_command(*numbers, x as int, y as int, count as int, k),
        ));
    }

    /// Draws the ammunition sign at `(x, y)`.
    pub fn draw_ammo(&mut self, numbers: &ImageHandle, x: i32, y: i32)
        ensures
            final(self).commands@ == old(self).commands@.push(
                ammo_command(*numbers, x as int, y as int),
            ),
            final(self).width == old(self).width,
            final(self).height == old(self).height,
    {
        self.commands.push(
            Draw::Image {
                image: *numbers,
                sx: 0,
                sy: 10,
                sw: 6,
                sh: 5,
                dx: x,
                dy: y,
                dw: 12000,
                dh: 10000,
            },
        );
    }
}

} // verus!
