//! The picture of a world: one pixel of red, green and blue for each cell,
//! and the same as a PNG file.

use vstd::prelude::*;
use crate::codec::same_bytes;
use crate::grid::Grid;
use crate::palette::{color_to_particle, is_nearest};
use crate::particle::Particle;
use crate::variant_type::{get_color, ParticleColor};
use crate::world::World;

verus! {

/// Number of bytes that a pixel takes.
pub const PIXEL_BYTES: usize = 3;

/// The code of the colour type with red, green and blue samples.
pub const RGB: u8 = 2;

/// The bit depth of one byte to a sample.
pub const EIGHT_BITS: u8 = 8;

/// What a PNG file holds: its sides, the code of its colour type, its bit
/// depth and its samples, row by row.
pub struct Picture {
    pub width: u32,
    pub height: u32,
    pub color_type: u8,
    pub bit_depth: u8,
    pub data: Vec<u8>,
}

/// Why a picture is refused.
#[derive(Clone, Copy, Debug, PartialEq, Eq, Structural)]
pub enum PictureError {
    /// The bytes are no PNG file that can be read.
    Unreadable,
    /// The samples are not red, green and blue of one byte each.
    WrongFormat,
    /// The picture has not the sides of the grid, or not three bytes for
    /// each cell.
    WrongSize,
}

/// What a PNG file holds, if it can be read: sides, code of the colour type,
/// bit depth, samples.
pub uninterp spec fn png_picture(file: Seq<u8>) -> Option<(u32, u32, u8, u8, Seq<u8>)>;

/// The PNG file that the encoder writes of a picture with the given sides
/// and samples of red, green and blue, one byte each, if it writes one.
pub uninterp spec fn png_file(width: u32, height: u32, rgb: Seq<u8>) -> Option<Seq<u8>>;

/// Encodes a picture with `png::Encoder`: `new` over a vector, `set_color`
/// to `Rgb`, `set_depth` to `Eight`, `write_header`, `write_image_data`, and
/// the writer dropped, which ends the file. Trusted: the result is what
/// `png_file` names, and there is none exactly where a step reports an
/// error. The samples are asked to be three for each pixel: the encoder
/// multiplies the sides before it looks at the samples, and sides whose
/// product does not fit are ruled out with them.
#[verifier::external_body]
fn png_encode(width: u32, height: u32, rgb: &Vec<u8>) -> (file: Option<Vec<u8>>)
    requires
        rgb@.len() == PIXEL_BYTES * width * height,
    ensures
        file matches Some(f) ==> png_file(width, height, rgb@) == Some(f@),
        file is None ==> png_file(width, height, rgb@) is None,
{
    let mut file = Vec::new();
    let mut encoder = png::Encoder::new(&mut file, width, height);
    encoder.set_color(png::ColorType::Rgb);
    encoder.set_depth(png::BitDepth::Eight);
    let mut writer = encoder.write_header().ok()?;
    writer.write_image_data(rgb).ok()?;
    drop(writer);
    Some(file)
}

/// Decodes a PNG file with `png::Decoder`: `new` over the bytes,
/// `read_info`, and `next_frame` into a buffer of `output_buffer_size`
/// bytes, cut to the frame's `buffer_size`. Trusted: the result is what
/// `png_picture` names, and there is none exactly where a step reports an
/// error.
#[verifier::external_body]
fn png_decode(file: &[u8]) -> (picture: Option<Picture>)
    ensures
        picture matches Some(p) ==> png_picture(file@) == Some(
            (p.width, p.height, p.color_type, p.bit_depth, p.data@),
        ),
        picture is None ==> png_picture(file@) is None,
{
    let mut reader = png::Decoder::new(file).read_info().ok()?;
    let mut data = vec![0; reader.output_buffer_size()];
    let frame = reader.next_frame(&mut data).ok()?;
    data.truncate(frame.buffer_size());
    Some(
        Picture {
            width: frame.width,
            height: frame.height,
            color_type: frame.color_type as u8,
            bit_depth: frame.bit_depth as u8,
            data,
        },
    )
}

/// Whether a PNG file holds a picture of the given sides with the given
/// samples of red, green and blue, one byte each.
pub open spec fn holds_picture(file: Seq<u8>, width: u32, height: u32, rgb: Seq<u8>) -> bool {
    png_picture(file) == Some((width, height, RGB, EIGHT_BITS, rgb))
}

/// What is kept of what an encoder wrote of a picture: the file itself
/// where it was written and holds the picture, and nothing otherwise.
pub fn vouch_png(written: Option<Vec<u8>>, width: u32, height: u32, rgb: &Vec<u8>) -> (kept: Option<
    Vec<u8>,
>)
    ensures
        match written {
            Some(f) => if holds_picture(f@, width, height, rgb@) {
                kept == Some(f)
            } else {
                kept is None
            },
            None => kept is None,
        },
{
    match written {
        None => None,
        Some(file) => match png_decode(file.as_slice()) {
            None => None,
            Some(back) => if back.width == width && back.height == height && back.color_type == RGB
                && back.bit_depth == EIGHT_BITS && same_bytes(&back.data, rgb) {
                Some(file)
            } else {
                None
            },
        },
    }
}

/// The pixels of cells, one behind the other.
pub open spec fn pixels(cells: Seq<Particle>) -> Seq<u8>
    decreases cells.len(),
{
    if cells.len() == 0 {
        Seq::empty()
    } else {
        let c = cells.last().color();
        pixels(cells.drop_last()) + seq![c.r, c.g, c.b]
    }
}

/// The base colours of the materials of cells, opaque, four bytes each.
pub open spec fn base_pixels(cells: Seq<Particle>) -> Seq<u8>
    decreases cells.len(),
{
    if cells.len() == 0 {
        Seq::empty()
    } else {
        let c = cells.last().variant.base_color();
        base_pixels(cells.drop_last()) + seq![c.r, c.g, c.b, 255u8]
    }
}

/// The colour of the `i`-th pixel of samples, opaque.
pub open spec fn pixel_at(data: Seq<u8>, i: int) -> ParticleColor {
    ParticleColor {
        r: data[PIXEL_BYTES * i],
        g: data[PIXEL_BYTES * i + 1],
        b: data[PIXEL_BYTES * i + 2],
        a: 255,
    }
}

/// What is wrong with a picture as the picture of a grid, if anything: the
/// format is tested first.
pub open spec fn picture_fault(
    g: Grid,
    width: u32,
    height: u32,
    color_type: u8,
    bit_depth: u8,
    data: Seq<u8>,
) -> Option<PictureError> {
    if color_type != RGB || bit_depth != EIGHT_BITS {
        Some(PictureError::WrongFormat)
    } else if width != g.width || height != g.height || data.len() != PIXEL_BYTES
        * g.cells.len() {
        Some(PictureError::WrongSize)
    } else {
        None
    }
}

/// The pixels of cells take three bytes for each cell.
pub proof fn lemma_pixels_len(cells: Seq<Particle>)
    ensures
        pixels(cells).len() == PIXEL_BYTES * cells.len(),
    decreases cells.len(),
{
    if cells.len() > 0 {
        lemma_pixels_len(cells.drop_last());
    }
}

impl Grid {
    /// Whether the grid has a picture: it has cells, one for each place.
    pub open spec fn has_picture(self) -> bool {
        self.width > 0 && self.height > 0 && self.cells.len() == self.width * self.height
    }

    /// The picture of the grid: the colour of every cell, in row-major
    /// order.
    pub open spec fn image(self) -> Seq<u8> {
        pixels(self.cells)
    }

    /// Whether `after` is this grid with every cell taken from a picture:
    /// each an untouched particle of the material whose base colour is
    /// nearest to its pixel.
    pub open spec fn painted(self, after: Grid, data: Seq<u8>) -> bool {
        &&& after == (Grid { cells: after.cells, ..self })
        &&& after.cells.len() == self.cells.len()
        &&& forall|i: int|
            0 <= i < after.cells.len() ==> {
                let p = #[trigger] after.cells[i];
                &&& is_nearest(pixel_at(data, i), p.variant)
                &&& p == (Particle { variant: p.variant, ..Particle::spec_empty() })
            }
    }
}

impl World {
    /// The picture of the world.
    pub fn image(&self) -> (rgb: Vec<u8>)
        ensures
            rgb@ == self@.image(),
    {
        let mut image: Vec<u8> = Vec::new();
        let mut i: usize = 0;
        assert(self.particles@.take(0) =~= Seq::empty());
        while i < self.particles.len()
            invariant
                0 <= i <= self.particles@.len(),
                image@ == pixels(self.particles@.take(i as int)),
            decreases self.particles@.len() - i,
        {
            let color = self.particles[i].save();
            image.push(color.0);
            image.push(color.1);
            image.push(color.2);
            proof {
                let next = self.particles@.take(i + 1);
                assert(next.drop_last() =~= self.particles@.take(i as int));
                assert(next.last() == self.particles@[i as int]);
                let c = self.particles@[i as int].color();
                assert(image@ =~= pixels(self.particles@.take(i as int)) + seq![c.r, c.g, c.b]);
            }
            i = i + 1;
        }
        assert(self.particles@.take(self.particles@.len() as int) =~= self.particles@);
        image
    }

    /// What a screen shows of the world: the base colour of the material
    /// of every cell, opaque, as red, green, blue and alpha.
    pub fn get_data(&self) -> (rgba: Vec<u8>)
        ensures
            rgba@ == base_pixels(self@.cells),
    {
        let mut data: Vec<u8> = Vec::new();
        let mut i: usize = 0;
        assert(self.particles@.take(0) =~= Seq::empty());
        while i < self.particles.len()
            invariant
                0 <= i <= self.particles@.len(),
                data@ == base_pixels(self.particles@.take(i as int)),
            decreases self.particles@.len() - i,
        {
            let color = get_color(self.particles[i].get_variant());
            data.push(color.r);
            data.push(color.g);
            data.push(color.b);
            data.push(255);
            proof {
                let next = self.particles@.take(i + 1);
                assert(next.drop_last() =~= self.particles@.take(i as int));
                assert(next.last() == self.particles@[i as int]);
                let c = self.particles@[i as int].variant.base_color();
                assert(data@ =~= base_pixels(self.particles@.take(i as int)) + seq![
                    c.r,
                    c.g,
                    c.b,
                    255u8,
                ]);
            }
            i = i + 1;
        }
        assert(self.particles@.take(self.particles@.len() as int) =~= self.particles@);
        data
    }

    /// The picture of the world as a PNG file. What the encoder wrote is
    /// decoded again and compared: the result is the file that the encoder
    /// writes of the picture, where that holds the picture. There is none
    /// where the world has no cells or not one for each place, where the
    /// encoder fails, or where its work does not stand the test.
    pub fn save_png(&self) -> (file: Option<Vec<u8>>)
        ensures
            self@.has_picture() ==> match png_file(
                self.width as u32,
                self.height as u32,
                self@.image(),
            ) {
                Some(f) => if holds_picture(
                    f,
                    self.width as u32,
                    self.height as u32,
                    self@.image(),
                ) {
                    file matches Some(v) && v@ == f
                } else {
                    file is None
                },
                None => file is None,
            },
            !self@.has_picture() ==> file is None,
    {
        if self.width <= 0 || self.height <= 0 {
            return None;
        }
        assert(0 < self.width * self.height <= 0x7fff_ffff * 0x7fff_ffff) by (nonlinear_arith)
            requires
                0 < self.width <= 0x7fff_ffff,
                0 < self.height <= 0x7fff_ffff,
        ;
        if self.particles.len() as u64 != self.width as u64 * self.height as u64 {
            return None;
        }
        let image = self.image();
        let width = self.width as u32;
        let height = self.height as u32;
        proof {
            lemma_pixels_len(self@.cells);
            assert(PIXEL_BYTES * width * height == PIXEL_BYTES * (width * height))
                by (nonlinear_arith);
        }
        vouch_png(png_encode(width, height, &image), width, height, &image)
    }

    /// Takes every cell from a picture of the sides of the grid. A picture
    /// of another format or size is refused and leaves the world as it is.
    pub fn load_picture(&mut self, picture: &Picture) -> (r: Result<(), PictureError>)
        ensures
            match r {
                Ok(_) => picture_fault(
                    old(self)@,
                    picture.width,
                    picture.height,
                    picture.color_type,
                    picture.bit_depth,
                    picture.data@,
                ) is None && old(self)@.painted(final(self)@, picture.data@),
                Err(e) => picture_fault(
                    old(self)@,
                    picture.width,
                    picture.height,
                    picture.color_type,
                    picture.bit_depth,
                    picture.data@,
                ) == Some(e) && final(self)@ == old(self)@,
            },
    {
        if picture.color_type != RGB || picture.bit_depth != EIGHT_BITS {
            return Err(PictureError::WrongFormat);
        }
        let n = self.particles.len();
        if picture.width as i64 != self.width as i64 || picture.height as i64 != self.height as i64
            || picture.data.len() as u128 != 3 * (n as u128) {
            return Err(PictureError::WrongSize);
        }
        let mut i: usize = 0;
        while i < n
            invariant
                0 <= i <= n,
                n == self.particles@.len(),
                n == old(self).particles@.len(),
                picture.data@.len() == PIXEL_BYTES * n,
                picture.data@.len() <= usize::MAX,
                forall|k: int|
                    0 <= k < i ==> {
                        let p = #[trigger] self.particles@[k];
                        &&& is_nearest(pixel_at(picture.data@, k), p.variant)
                        &&& p == (Particle { variant: p.variant, ..Particle::spec_empty() })
                    },
                self.environment == old(self).environment,
                self.width == old(self).width,
                self.height == old(self).height,
                self.running == old(self).running,
                self.generation == old(self).generation,
                self.modified_state == old(self).modified_state,
                self.cleared == old(self).cleared,
                self.modified_indices == old(self).modified_indices,
            decreases n - i,
        {
            let r = picture.data[3 * i];
            let g = picture.data[3 * i + 1];
            let b = picture.data[3 * i + 2];
            self.particles.set(i, color_to_particle((r, g, b)));
            i = i + 1;
        }
        Ok(())
    }

    /// Takes every cell from a PNG file. A file that cannot be read is
    /// refused, and so is one whose picture `load_picture` refuses; the
    /// world then stays as it is.
    pub fn load_png(&mut self, file: &[u8]) -> (r: Result<(), PictureError>)
        ensures
            match png_picture(file@) {
                None => r == Err::<(), PictureError>(PictureError::Unreadable) && final(self)@
                    == old(self)@,
                Some(p) => match r {
                    Ok(_) => picture_fault(old(self)@, p.0, p.1, p.2, p.3, p.4) is None && old(
                        self,
                    )@.painted(final(self)@, p.4),
                    Err(e) => picture_fault(old(self)@, p.0, p.1, p.2, p.3, p.4) == Some(e)
                        && final(self)@ == old(self)@,
                },
            },
    {
        match png_decode(file) {
            None => Err(PictureError::Unreadable),
            Some(picture) => self.load_picture(&picture),
        }
    }
}

} // verus!
