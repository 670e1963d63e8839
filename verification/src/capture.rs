//! Turning raw display pixels into a packed RGB snapshot.
//!
//! A display hands out one machine word per pixel, top row first, together
//! with three bit masks that say where the red, green and blue channels sit in
//! that word. A snapshot is the same image as three bytes per pixel, with the
//! bottom row first, which is the row order a texture upload expects.

use vstd::arithmetic::div_mod::lemma_fundamental_div_mod_converse;
use vstd::arithmetic::power2::{lemma2_to64, pow2};
use vstd::prelude::*;
use vstd::std_specs::bits::{axiom_u64_trailing_zeros, u64_trailing_zeros};

verus! {

/// Why a frame of raw pixels cannot become a snapshot.
#[derive(Clone, Copy, Debug, PartialEq, Eq, Structural)]
pub enum CaptureError {
    /// A side of the screen is zero or negative.
    EmptyScreen,
    /// A channel mask is not a run of one to eight adjacent bits.
    UnsupportedVisual,
    /// The number of pixels differs from width times height.
    PixelCount,
}

/// A channel mask is usable when, shifted down by its trailing zeros, it is a
/// run of one to eight ones: the channel is contiguous and its values fit a
/// byte.
pub open spec fn is_byte_channel(mask: u64) -> bool {
    &&& mask != 0
    &&& exists|width: nat|
        1 <= width <= 8 && mask >> u64_trailing_zeros(mask) == pow2(width) - 1
}

/// The value of one channel of a pixel: the masked bits, shifted down by the
/// number of trailing zeros of the mask.
pub open spec fn channel_value(pixel: u64, mask: u64) -> u64 {
    (pixel & mask) >> u64_trailing_zeros(mask)
}

/// A run of ones from bit zero upward that fits a byte.
spec fn is_low_run(run: u64) -> bool {
    run != 0 && run <= 0xFF && run & ((run + 1) as u64) == 0
}

proof fn lemma_low_run(run: u64)
    ensures
        is_low_run(run) <==> exists|width: nat| 1 <= width <= 8 && run == pow2(width) - 1,
{
    lemma2_to64();
    if is_low_run(run) {
        assert(run == 1 || run == 3 || run == 7 || run == 15 || run == 31 || run == 63 || run
            == 127 || run == 255) by (bit_vector)
            requires
                run != 0 && run <= 0xFF && run & ((run + 1) as u64) == 0,
        ;
        let width: nat = if run == 1 {
            1
        } else if run == 3 {
            2
        } else if run == 7 {
            3
        } else if run == 15 {
            4
        } else if run == 31 {
            5
        } else if run == 63 {
            6
        } else if run == 127 {
            7
        } else {
            8
        };
        assert(1 <= width <= 8 && run == pow2(width) - 1);
    }
    if exists|width: nat| 1 <= width <= 8 && run == pow2(width) - 1 {
        let width = choose|width: nat| 1 <= width <= 8 && run == pow2(width) - 1;
        assert(run == 1 || run == 3 || run == 7 || run == 15 || run == 31 || run == 63 || run
            == 127 || run == 255);
        assert(run != 0 && run <= 0xFF && run & ((run + 1) as u64) == 0) by (bit_vector)
            requires
                run == 1 || run == 3 || run == 7 || run == 15 || run == 31 || run == 63 || run
                    == 127 || run == 255,
        ;
    }
}

/// The place of one colour channel in a pixel word.
#[derive(Clone, Copy, Debug, PartialEq, Eq)]
pub struct ChannelMask {
    bits: u64,
    shift: u32,
}

impl ChannelMask {
    #[verifier::type_invariant]
    spec fn inv(self) -> bool {
        is_byte_channel(self.bits) && self.shift == u64_trailing_zeros(self.bits)
    }

    /// The mask itself.
    pub closed spec fn spec_bits(&self) -> u64 {
        self.bits
    }

    /// The mask is usable. Holds of every mask that `new` returns.
    pub open spec fn wf(&self) -> bool {
        is_byte_channel(self.spec_bits())
    }

    /// The channel that `bits` selects, if it is contiguous and fits a byte.
    pub fn new(bits: u64) -> (mask: Option<ChannelMask>)
        ensures
            mask is Some <==> is_byte_channel(bits),
            mask matches Some(m) ==> m.spec_bits() == bits,
    {
        if bits == 0 {
            return None;
        }
        let shift: u32 = bits.trailing_zeros();
        proof {
            axiom_u64_trailing_zeros(bits);
        }
        let run: u64 = bits >> shift;
        proof {
            lemma_low_run(run);
        }
        if run != 0 && run <= 0xFF && run & (run + 1) == 0 {
            Some(ChannelMask { bits, shift })
        } else {
            None
        }
    }

    #[verifier::when_used_as_spec(spec_bits)]
    pub fn bits(&self) -> (bits: u64)
        ensures
            bits == self.spec_bits(),
            self.wf(),
        no_unwind
    {
        proof {
            use_type_invariant(self);
        }
        self.bits
    }

    /// The value of this channel in `pixel`.
    pub fn extract(&self, pixel: u64) -> (value: u8)
        ensures
            value == channel_value(pixel, self.spec_bits()),
        no_unwind
    {
        proof {
            use_type_invariant(self);
            axiom_u64_trailing_zeros(self.bits);
            lemma_low_run(self.bits >> self.shift);
        }
        let bits: u64 = self.bits;
        let shift: u32 = self.shift;
        assert((pixel & bits) >> shift <= 0xFF) by (bit_vector)
            requires
                bits >> shift <= 0xFF,
                shift < 64,
        ;
        ((pixel & bits) >> shift) as u8
    }
}

/// The three channel masks of a visual, as the display reports them.
#[derive(Clone, Copy, Debug, PartialEq, Eq, Structural)]
pub struct VisualMasks {
    pub red: u64,
    pub green: u64,
    pub blue: u64,
}

impl VisualMasks {
    /// Each of the three masks is usable.
    pub open spec fn supported(&self) -> bool {
        is_byte_channel(self.red) && is_byte_channel(self.green) && is_byte_channel(self.blue)
    }

    /// The mask of channel 0 (red), 1 (green) or 2 (blue).
    pub open spec fn channel(&self, channel: int) -> u64 {
        if channel == 0 {
            self.red
        } else if channel == 1 {
            self.green
        } else {
            self.blue
        }
    }
}

/// The places of the three colour channels in a pixel word, each of them
/// usable.
#[derive(Clone, Copy, Debug, PartialEq, Eq)]
pub struct PixelFormat {
    pub red: ChannelMask,
    pub green: ChannelMask,
    pub blue: ChannelMask,
}

impl PixelFormat {
    /// The masks that the format was made from.
    pub open spec fn masks(&self) -> VisualMasks {
        VisualMasks {
            red: self.red.spec_bits(),
            green: self.green.spec_bits(),
            blue: self.blue.spec_bits(),
        }
    }

    /// The format with the given masks, if each of them is usable.
    pub fn new(masks: VisualMasks) -> (format: Option<PixelFormat>)
        ensures
            format is Some <==> masks.supported(),
            format matches Some(f) ==> f.masks() == masks,
    {
        match (ChannelMask::new(masks.red), ChannelMask::new(masks.green), ChannelMask::new(
            masks.blue,
        )) {
            (Some(red), Some(green), Some(blue)) => Some(PixelFormat { red, green, blue }),
            _ => None,
        }
    }
}

/// The byte at index `i` of the packed image: bytes come in threes (red,
/// green, blue), pixels left to right, rows from the bottom of the screen to
/// its top.
pub open spec fn packed_byte(
    width: int,
    height: int,
    pixels: Seq<u64>,
    masks: VisualMasks,
    i: int,
) -> u64
    recommends
        width > 0,
        height > 0,
        pixels.len() == width * height,
        0 <= i < 3 * width * height,
{
    let row = i / (3 * width);
    let column = (i / 3) % width;
    channel_value(pixels[(height - 1 - row) * width + column], masks.channel(i % 3))
}

/// The packed image of a screen of `width` by `height` pixels.
pub open spec fn packed_rgb(width: int, height: int, pixels: Seq<u64>, masks: VisualMasks) -> Seq<
    u8,
>
    recommends
        width > 0,
        height > 0,
        pixels.len() == width * height,
{
    Seq::new(
        (3 * width * height) as nat,
        |i: int| packed_byte(width, height, pixels, masks, i) as u8,
    )
}

/// Where channel `channel` of the screen pixel at column `x`, row `y` (from
/// the top) lies in the packed image.
pub open spec fn packed_index(width: int, height: int, x: int, y: int, channel: int) -> int {
    ((height - 1 - y) * width + x) * 3 + channel
}

/// The three index parts of a packed byte are recovered by division.
proof fn lemma_split_index(width: int, row: int, column: int, channel: int)
    requires
        width > 0,
        0 <= column < width,
        0 <= channel < 3,
    ensures
        ((row * width + column) * 3 + channel) / (3 * width) == row,
        (((row * width + column) * 3 + channel) / 3) % width == column,
        ((row * width + column) * 3 + channel) % 3 == channel,
{
    let i = (row * width + column) * 3 + channel;
    lemma_fundamental_div_mod_converse(i, 3, row * width + column, channel);
    lemma_fundamental_div_mod_converse(row * width + column, width, row, column);
    assert(i == row * (3 * width) + (column * 3 + channel)) by (nonlinear_arith)
        requires
            i == (row * width + column) * 3 + channel,
    ;
    lemma_fundamental_div_mod_converse(i, 3 * width, row, column * 3 + channel);
}

/// Every channel of every screen pixel is found in the packed image at its
/// flipped place, and its value there is the channel value of that pixel.
pub proof fn lemma_packed_rgb_at(
    width: int,
    height: int,
    pixels: Seq<u64>,
    masks: VisualMasks,
    x: int,
    y: int,
    channel: int,
)
    requires
        width > 0,
        height > 0,
        0 <= x < width,
        0 <= y < height,
        0 <= channel < 3,
        masks.supported(),
    ensures
        0 <= packed_index(width, height, x, y, channel) < packed_rgb(
            width,
            height,
            pixels,
            masks,
        ).len(),
        packed_rgb(width, height, pixels, masks)[packed_index(width, height, x, y, channel)]
            == channel_value(pixels[y * width + x], masks.channel(channel)),
{
    let row = height - 1 - y;
    let i = packed_index(width, height, x, y, channel);
    lemma_split_index(width, row, x, channel);
    assert(0 <= row * width && row * width + width <= height * width) by (nonlinear_arith)
        requires
            0 <= row < height,
            width > 0,
    ;
    assert(3 * width * height == (height * width) * 3) by (nonlinear_arith);
    assert((height - 1 - row) * width + x == y * width + x);
    lemma_channel_value_fits(pixels[y * width + x], masks.channel(channel));
}

/// A channel value under a usable mask fits a byte.
pub proof fn lemma_channel_value_fits(pixel: u64, mask: u64)
    requires
        is_byte_channel(mask),
    ensures
        channel_value(pixel, mask) <= 0xFF,
{
    axiom_u64_trailing_zeros(mask);
    let shift = u64_trailing_zeros(mask);
    lemma_low_run(mask >> shift);
    assert((pixel & mask) >> shift <= 0xFF) by (bit_vector)
        requires
            mask >> shift <= 0xFF,
            shift < 64,
    ;
}

/// What is wrong with a frame of raw pixels, if anything: the sides are
/// looked at first, then the masks, then the number of pixels.
pub open spec fn capture_fault(width: int, height: int, pixel_count: int, masks: VisualMasks)
    -> Option<CaptureError> {
    if width <= 0 || height <= 0 {
        Some(CaptureError::EmptyScreen)
    } else if !masks.supported() {
        Some(CaptureError::UnsupportedVisual)
    } else if pixel_count != width * height {
        Some(CaptureError::PixelCount)
    } else {
        None
    }
}

/// An RGB image of a screen: three bytes per pixel, bottom row first.
#[derive(Debug, PartialEq, Eq)]
pub struct Snapshot {
    width: i32,
    height: i32,
    bytes: Vec<u8>,
}

impl View for Snapshot {
    type V = Seq<u8>;

    /// The bytes of the image.
    closed spec fn view(&self) -> Seq<u8> {
        self.bytes@
    }
}

impl Snapshot {
    #[verifier::type_invariant]
    spec fn inv(self) -> bool {
        &&& self.width > 0
        &&& self.height > 0
        &&& self.bytes@.len() == 3 * self.width * self.height
    }

    /// The width of the image in pixels.
    pub closed spec fn spec_width(&self) -> i32 {
        self.width
    }

    /// The height of the image in pixels.
    pub closed spec fn spec_height(&self) -> i32 {
        self.height
    }

    /// The sides are positive and the image holds three bytes per pixel.
    /// Holds of every snapshot that `from_pixels` returns.
    pub open spec fn wf(&self) -> bool {
        &&& self.spec_width() > 0
        &&& self.spec_height() > 0
        &&& self@.len() == 3 * self.spec_width() * self.spec_height()
    }

    /// Packs the pixels of a screen into a snapshot.
    ///
    /// `pixels` holds one word per pixel, rows from top to bottom and each row
    /// from left to right; `masks` says where the channels lie in a word. The
    /// snapshot holds the same image with its rows in reverse order. The call
    /// fails exactly when `capture_fault` names a fault, and with that fault.
    pub fn from_pixels(width: i32, height: i32, pixels: &[u64], masks: VisualMasks) -> (result:
        Result<Snapshot, CaptureError>)
        ensures
            match result {
                Ok(snapshot) => {
                    &&& capture_fault(width as int, height as int, pixels@.len() as int, masks)
                        is None
                    &&& snapshot.wf()
                    &&& snapshot.spec_width() == width
                    &&& snapshot.spec_height() == height
                    &&& snapshot@ == packed_rgb(width as int, height as int, pixels@, masks)
                },
                Err(fault) => capture_fault(
                    width as int,
                    height as int,
                    pixels@.len() as int,
                    masks,
                ) == Some(fault),
            },
    {
        if width <= 0 || height <= 0 {
            return Err(CaptureError::EmptyScreen);
        }
        let format = match PixelFormat::new(masks) {
            Some(format) => format,
            None => {
                return Err(CaptureError::UnsupportedVisual);
            },
        };
        assert(0 < width * height <= 0x7fff_ffff * 0x7fff_ffff) by (nonlinear_arith)
            requires
                0 < width <= 0x7fff_ffff,
                0 < height <= 0x7fff_ffff,
        ;
        let expected: u64 = width as u64 * height as u64;
        if pixels.len() as u64 != expected {
            return Err(CaptureError::PixelCount);
        }
        let bytes = pack(width as usize, height as usize, pixels, &format);
        assert(3 * width * height == 3 * (width * height)) by (nonlinear_arith);
        Ok(Snapshot { width, height, bytes })
    }

    #[verifier::when_used_as_spec(spec_width)]
    pub fn width(&self) -> (width: i32)
        ensures
            width == self.spec_width(),
            self.wf(),
        no_unwind
    {
        proof {
            use_type_invariant(self);
        }
        self.width
    }

    #[verifier::when_used_as_spec(spec_height)]
    pub fn height(&self) -> (height: i32)
        ensures
            height == self.spec_height(),
            self.wf(),
        no_unwind
    {
        proof {
            use_type_invariant(self);
        }
        self.height
    }

    /// The bytes of the image, three per pixel.
    pub fn bytes(&self) -> (bytes: &Vec<u8>)
        ensures
            bytes@ == self@,
            self.wf(),
        no_unwind
    {
        proof {
            use_type_invariant(self);
        }
        &self.bytes
    }

    /// Gives up the snapshot for its bytes.
    pub fn into_bytes(self) -> (bytes: Vec<u8>)
        ensures
            bytes@ == self@,
            self.wf(),
        no_unwind
    {
        proof {
            use_type_invariant(&self);
        }
        self.bytes
    }
}

/// Packs the pixels of a screen, bottom row first.
fn pack(width: usize, height: usize, pixels: &[u64], format: &PixelFormat) -> (bytes: Vec<u8>)
    requires
        width > 0,
        height > 0,
        pixels@.len() == width * height,
    ensures
        bytes@ == packed_rgb(width as int, height as int, pixels@, format.masks()),
{
    let ghost w = width as int;
    let ghost h = height as int;
    let ghost masks = format.masks();
    let count: usize = pixels.len();
    let mut bytes: Vec<u8> = Vec::new();
    let mut row: usize = 0;
    while row < height
        invariant
            w == width,
            h == height,
            masks == format.masks(),
            width > 0,
            row <= height,
            pixels@.len() == w * h,
            w * h == count,
            bytes@.len() == 3 * (row * w),
            forall|i: int|
                0 <= i < bytes@.len() ==> #[trigger] bytes@[i] == packed_byte(
                    w,
                    h,
                    pixels@,
                    masks,
                    i,
                ),
        decreases height - row,
    {
        let source: usize = height - 1 - row;
        assert(0 <= source * w && source * w + w <= w * h) by (nonlinear_arith)
            requires
                0 <= source < h,
                w > 0,
        ;
        let base: usize = source * width;
        let mut column: usize = 0;
        while column < width
            invariant
                w == width,
                h == height,
                masks == format.masks(),
                row < height,
                column <= width,
                source == h - 1 - row,
                base == source * w,
                base + w <= w * h,
                pixels@.len() == w * h,
                w * h == count,
                bytes@.len() == 3 * (row * w + column),
                forall|i: int|
                    0 <= i < bytes@.len() ==> #[trigger] bytes@[i] == packed_byte(
                        w,
                        h,
                        pixels@,
                        masks,
                        i,
                    ),
            decreases width - column,
        {
            let pixel: u64 = pixels[base + column];
            let red: u8 = format.red.extract(pixel);
            let green: u8 = format.green.extract(pixel);
            let blue: u8 = format.blue.extract(pixel);
            proof {
                lemma_split_index(w, row as int, column as int, 0);
                lemma_split_index(w, row as int, column as int, 1);
                lemma_split_index(w, row as int, column as int, 2);
            }
            bytes.push(red);
            bytes.push(green);
            bytes.push(blue);
            column = column + 1;
        }
        assert(3 * (row * w + w) == 3 * ((row + 1) * w)) by (nonlinear_arith);
        row = row + 1;
    }
    assert(3 * (row * w) == 3 * w * h) by (nonlinear_arith)
        requires
            row == h,
    ;
    assert(bytes@ =~= packed_rgb(w, h, pixels@, masks));
    bytes
}

} // verus!
