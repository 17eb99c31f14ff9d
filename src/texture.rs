use vstd::prelude::*;

verus! {

/// Length of the container header that holds the four layout fields.
pub const HEADER_LEN: usize = 26;

/// The color of one texel packed into 32 bits: red in bits 0-7, green in
/// bits 8-15, blue in bits 16-23.
pub open spec fn packed_color(r: u8, g: u8, b: u8) -> u32 {
    (r as int + 256 * (g as int) + 65536 * (b as int)) as u32
}

/// Packs three color bytes into one pixel value.
pub fn pack_rgb(r: u8, g: u8, b: u8) -> (c: u32)
    ensures
        c == packed_color(r, g, b),
        c < 0x100_0000,
{
    let (r32, g32, b32) = (r as u32, g as u32, b as u32);
    let c = r32 | (g32 << 8u32) | (b32 << 16u32);
    assert(c == r32 + 256 * g32 + 65536 * b32 && c < 0x100_0000) by (bit_vector)
        requires
            c == r32 | (g32 << 8u32) | (b32 << 16u32),
            r32 < 256,
            g32 < 256,
            b32 < 256,
    ;
    c
}

/// Where the texels of an equirectangular image lie in its byte buffer.
///
/// `width` texels span the full azimuth turn, `height` rows span the
/// declination half turn; rows are stored one after another, unpadded.
#[derive(Clone, Copy, Debug, PartialEq, Eq, Structural)]
pub struct TextureLayout {
    pub data_offset: u32,
    pub width: u32,
    pub height: u32,
}

impl TextureLayout {
    /// Every texel of the image lies inside a buffer of `len` bytes.
    pub open spec fn fits(self, len: int) -> bool {
        &&& self.width > 0
        &&& self.height > 0
        &&& self.data_offset + 3 * (self.width * self.height) <= len
    }

    /// Byte offset of the texel at `(row, col)`.
    pub open spec fn offset_of(self, row: int, col: int) -> int {
        self.data_offset + 3 * (row * self.width + col)
    }

    /// Tells whether every texel lies inside a buffer of `len` bytes.
    pub fn fits_in(&self, len: usize) -> (r: bool)
        ensures
            r == self.fits(len as int),
    {
        if self.width == 0 || self.height == 0 {
            return false;
        }
        assert(self.width * self.height <= 0xffff_ffff * 0xffff_ffff) by (nonlinear_arith)
            requires
                self.width <= 0xffff_ffff,
                self.height <= 0xffff_ffff,
        ;
        let texels: u64 = self.width as u64 * self.height as u64;
        if texels > (u64::MAX - self.data_offset as u64) / 3 {
            return false;
        }
        self.data_offset as u64 + 3 * texels <= len as u64
    }

    /// Byte offset of the texel at `(row, col)`; the texel's three bytes lie
    /// inside the buffer.
    pub fn texel_offset(&self, len: usize, row: u32, col: u32) -> (o: usize)
        requires
            self.fits(len as int),
            row < self.height,
            col < self.width,
        ensures
            o == self.offset_of(row as int, col as int),
            o + 3 <= len,
    {
        proof {
            let (w, h) = (self.width as int, self.height as int);
            assert(row * w + col + 1 <= w * h) by (nonlinear_arith)
                requires
                    0 <= row < h,
                    0 <= col < w,
            ;
        }
        let index: u64 = row as u64 * self.width as u64 + col as u64;
        (self.data_offset as u64 + 3 * index) as usize
    }

    /// Packed color of the texel at `(row, col)` of `bytes`.
    pub fn sample(&self, bytes: &Vec<u8>, row: u32, col: u32) -> (c: u32)
        requires
            self.fits(bytes@.len() as int),
            row < self.height,
            col < self.width,
        ensures
            c == packed_color(
                bytes@[self.offset_of(row as int, col as int)],
                bytes@[self.offset_of(row as int, col as int) + 1],
                bytes@[self.offset_of(row as int, col as int) + 2],
            ),
    {
        let o = self.texel_offset(bytes.len(), row, col);
        pack_rgb(bytes[o], bytes[o + 1], bytes[o + 2])
    }
}

/// The little-endian unsigned 32-bit integer in `s[at..at + 4]`.
pub open spec fn le_u32(s: Seq<u8>, at: int) -> int {
    s[at] as int + 0x100 * (s[at + 1] as int) + 0x1_0000 * (s[at + 2] as int) + 0x100_0000 * (
    s[at + 3] as int)
}

/// Reads the little-endian unsigned 32-bit integer at byte `at`.
pub fn read_u32_le(bytes: &Vec<u8>, at: usize) -> (v: u32)
    requires
        at + 4 <= bytes@.len(),
    ensures
        v == le_u32(bytes@, at as int),
{
    let n = bytes.len();
    assert(at + 4 <= n);
    let (b0, b1, b2, b3) = (
        bytes[at] as u32,
        bytes[at + 1] as u32,
        bytes[at + 2] as u32,
        bytes[at + 3] as u32,
    );
    assert(b0 + 0x100 * b1 + 0x1_0000 * b2 + 0x100_0000 * b3 <= 0xffff_ffff) by (nonlinear_arith)
        requires
            b0 < 256,
            b1 < 256,
            b2 < 256,
            b3 < 256,
    ;
    b0 + 0x100 * b1 + 0x1_0000 * b2 + 0x100_0000 * b3
}

/// The four layout fields of an image container.
#[derive(Clone, Copy, Debug, PartialEq, Eq, Structural)]
pub struct Header {
    /// Total container length, as the container states it.
    pub file_len: u32,
    pub layout: TextureLayout,
}

/// Why an image container cannot be used.
#[derive(Clone, Copy, Debug, PartialEq, Eq, Structural)]
pub enum AssetError {
    /// Shorter than the header.
    Truncated,
    /// The header describes texels that lie past the end of the buffer, or
    /// an image with no texels.
    PixelsOutOfBounds,
}

/// The layout that the header of `s` describes (`s` holds a whole header).
pub open spec fn header_layout(s: Seq<u8>) -> TextureLayout {
    TextureLayout {
        data_offset: le_u32(s, 10) as u32,
        width: le_u32(s, 18) as u32,
        height: le_u32(s, 22) as u32,
    }
}

/// Reads the header of an image container and checks that every texel it
/// describes lies inside the container.
pub fn parse_header(bytes: &Vec<u8>) -> (r: Result<Header, AssetError>)
    ensures
        bytes@.len() < HEADER_LEN ==> r == Err::<Header, AssetError>(AssetError::Truncated),
        bytes@.len() >= HEADER_LEN && !header_layout(bytes@).fits(bytes@.len() as int) ==> r
            == Err::<Header, AssetError>(AssetError::PixelsOutOfBounds),
        bytes@.len() >= HEADER_LEN && header_layout(bytes@).fits(bytes@.len() as int) ==> r
            == Ok::<Header, AssetError>(
            Header { file_len: le_u32(bytes@, 2) as u32, layout: header_layout(bytes@) },
        ),
{
    if bytes.len() < HEADER_LEN {
        return Err(AssetError::Truncated);
    }
    let layout = TextureLayout {
        data_offset: read_u32_le(bytes, 10),
        width: read_u32_le(bytes, 18),
        height: read_u32_le(bytes, 22),
    };
    if !layout.fits_in(bytes.len()) {
        return Err(AssetError::PixelsOutOfBounds);
    }
    Ok(Header { file_len: read_u32_le(bytes, 2), layout })
}

} // verus!
