//! X11 pixel decoding, keyboard mapping lookups, rubber-band selection and
//! window geometry, as plain computations on the values the X server sends.

use vstd::prelude::*;
use vstd::std_specs::bits::u32_trailing_zeros;

use crate::error::{CaptureError, CaptureResult};
use crate::model::{crop_result, crop_safe, CaptureArea, CaptureRegion, CapturedImage};
use crate::text::{decimal, push_decimal};
use vstd::slice::slice_subrange;

verus! {

broadcast use vstd::std_specs::bits::axiom_u32_trailing_zeros;

/// X11-based screen capture backend for full-screen screenshots.
#[derive(Debug, Default, Clone, Copy)]
pub struct X11Backend;

impl X11Backend {
    /// Returns the stable identifier of this backend.
    pub fn backend_name(&self) -> (name: &'static str)
        ensures
            name@ == "x11"@,
    {
        "x11"
    }
}

/// The value of the channel selected by `mask` in `pixel`, scaled to 0..=255.
pub open spec fn channel_value(pixel: u32, mask: u32) -> int {
    if mask == 0 {
        0
    } else {
        let shift = u32_trailing_zeros(mask);
        let max_value = mask >> shift;
        let raw = (pixel & mask) >> shift;
        if max_value == 0 {
            0
        } else {
            (raw * 255) / (max_value as int)
        }
    }
}

/// Scaling the channel selected by `mask` in `pixel` does not overflow a `u32`.
pub open spec fn channel_scalable(pixel: u32, mask: u32) -> bool {
    mask != 0 ==> ((pixel & mask) >> u32_trailing_zeros(mask)) * 255 <= u32::MAX
}

proof fn lemma_masked_bits_bounded(pixel: u32, mask: u32, shift: u32)
    ensures
        (pixel & mask) >> shift <= mask >> shift,
{
    assert((pixel & mask) >> shift <= mask >> shift) by (bit_vector);
}

/// Extracts the channel selected by `mask` from `pixel` and scales it to 8 bits.
pub fn scale_channel(pixel: u32, mask: u32) -> (v: u8)
    requires
        channel_scalable(pixel, mask),
    ensures
        v == channel_value(pixel, mask),
{
    if mask == 0 {
        return 0;
    }
    let shift = mask.trailing_zeros();
    let max_value = mask >> shift;
    let raw = (pixel & mask) >> shift;
    if max_value == 0 {
        0
    } else {
        proof {
            lemma_masked_bits_bounded(pixel, mask, shift);
            assert((raw * 255) / (max_value as int) <= 255) by (nonlinear_arith)
                requires
                    raw <= max_value,
                    max_value > 0,
            ;
            assert((raw * 255) / (max_value as int) >= 0) by (nonlinear_arith)
                requires
                    raw >= 0,
                    max_value > 0,
            ;
        }
        ((raw * 255) / max_value) as u8
    }
}

/// A channel at the top of its range scales to 255 and an empty channel to 0.
pub proof fn lemma_channel_extremes(pixel: u32, mask: u32)
    requires
        mask != 0,
    ensures
        (pixel & mask) == mask ==> channel_value(pixel, mask) == 255,
        (pixel & mask) == 0 ==> channel_value(pixel, mask) == 0,
{
    let shift = u32_trailing_zeros(mask);
    assert(mask >> shift != 0) by (bit_vector)
        requires
            mask != 0,
            shift < 32,
            (mask >> shift) & 1u32 == 1u32,
    ;
    let max_value = (mask >> shift) as int;
    assert((max_value * 255) / max_value == 255) by (nonlinear_arith)
        requires
            max_value > 0,
    ;
    assert((0u32 >> shift) == 0) by (bit_vector);
}

/// The value of one pixel of `chunk.len()` bytes in the given byte order.
pub open spec fn chunk_value(chunk: Seq<u8>, little_endian: bool) -> int {
    let n = chunk.len();
    if n == 1 {
        chunk[0] as int
    } else if n == 2 {
        if little_endian {
            chunk[0] + chunk[1] * 256
        } else {
            chunk[1] + chunk[0] * 256
        }
    } else if n == 3 {
        if little_endian {
            chunk[0] + chunk[1] * 256 + chunk[2] * 65536
        } else {
            chunk[2] + chunk[1] * 256 + chunk[0] * 65536
        }
    } else {
        if little_endian {
            chunk[0] + chunk[1] * 256 + chunk[2] * 65536 + chunk[3] * 16777216
        } else {
            chunk[3] + chunk[2] * 256 + chunk[1] * 65536 + chunk[0] * 16777216
        }
    }
}

/// The value of pixel `i` of a buffer of `bpp`-byte pixels.
pub open spec fn pixel_value(data: Seq<u8>, bpp: nat, little_endian: bool, i: int) -> u32 {
    chunk_value(data.subrange(i * bpp, i * bpp + bpp), little_endian) as u32
}

/// Channel masks of the visual that pixels are read with.
#[derive(Debug, Clone, Copy, PartialEq, Eq, Structural)]
pub struct ChannelMasks {
    /// The bits of a pixel that hold red.
    pub red: u32,
    /// The bits of a pixel that hold green.
    pub green: u32,
    /// The bits of a pixel that hold blue.
    pub blue: u32,
}

/// The RGBA bytes of the first `n` pixels of `data`.
pub open spec fn decoded_pixels(
    data: Seq<u8>,
    bpp: nat,
    little_endian: bool,
    masks: ChannelMasks,
    n: nat,
) -> Seq<u8>
    decreases n,
{
    if n == 0 {
        Seq::empty()
    } else {
        let v = pixel_value(data, bpp, little_endian, n - 1);
        decoded_pixels(data, bpp, little_endian, masks, (n - 1) as nat) + seq![
            channel_value(v, masks.red) as u8,
            channel_value(v, masks.green) as u8,
            channel_value(v, masks.blue) as u8,
            255u8,
        ]
    }
}

/// Decoding `n` pixels yields four bytes (red, green, blue, alpha) for each.
pub proof fn lemma_decoded_len(data: Seq<u8>, bpp: nat, little_endian: bool, masks: ChannelMasks, n: nat)
    ensures
        decoded_pixels(data, bpp, little_endian, masks, n).len() == 4 * n,
    decreases n,
{
    if n > 0 {
        lemma_decoded_len(data, bpp, little_endian, masks, (n - 1) as nat);
    }
}

/// How the bytes of pixel `i` make its value: a little-endian server sends
/// the least significant byte first, a big-endian one the most significant.
pub proof fn lemma_pixel_byte_order(data: Seq<u8>, bpp: nat, i: int)
    requires
        1 <= bpp <= 4,
        0 <= i,
        i * bpp + bpp <= data.len(),
    ensures
        ({
            let b0 = data[i * bpp] as int;
            let b1 = data[i * bpp + 1] as int;
            let b2 = data[i * bpp + 2] as int;
            let b3 = data[i * bpp + 3] as int;
            let le = pixel_value(data, bpp, true, i) as int;
            let be = pixel_value(data, bpp, false, i) as int;
            &&& bpp == 1 ==> le == b0 && be == b0
            &&& bpp == 2 ==> le == b0 + 256 * b1 && be == 256 * b0 + b1
            &&& bpp == 3 ==> le == b0 + 256 * b1 + 65536 * b2 && be == 65536 * b0 + 256 * b1 + b2
            &&& bpp == 4 ==> le == b0 + 256 * b1 + 65536 * b2 + 16777216 * b3 && be == 16777216 * b0
                + 65536 * b1 + 256 * b2 + b3
        }),
{
    let start = i * bpp;
    let chunk = data.subrange(start, start + bpp);
    assert(chunk.len() == bpp);
    assert(forall|k: int| 0 <= k < bpp ==> #[trigger] chunk[k] == data[start + k]);
    let c0 = chunk[0] as int;
    assert(0 <= c0 < 256);
    if bpp >= 2 {
        assert(0 <= chunk[1] < 256);
    }
    if bpp >= 3 {
        assert(0 <= chunk[2] < 256);
    }
    if bpp >= 4 {
        assert(0 <= chunk[3] < 256);
    }
    assert(0 <= chunk_value(chunk, true) <= u32::MAX);
    assert(0 <= chunk_value(chunk, false) <= u32::MAX);
}

/// Pixel `i` of the decoded image is the four bytes red, green, blue and
/// opaque alpha read through the masks from pixel `i` of the raw data.
pub proof fn lemma_decoded_pixel(
    data: Seq<u8>,
    bpp: nat,
    little_endian: bool,
    masks: ChannelMasks,
    n: nat,
    i: int,
)
    requires
        0 <= i < n,
    ensures
        ({
            let out = decoded_pixels(data, bpp, little_endian, masks, n);
            let v = pixel_value(data, bpp, little_endian, i);
            &&& out.len() == 4 * n
            &&& out[4 * i] == channel_value(v, masks.red) as u8
            &&& out[4 * i + 1] == channel_value(v, masks.green) as u8
            &&& out[4 * i + 2] == channel_value(v, masks.blue) as u8
            &&& out[4 * i + 3] == 255
        }),
    decreases n,
{
    lemma_decoded_len(data, bpp, little_endian, masks, n);
    lemma_decoded_len(data, bpp, little_endian, masks, (n - 1) as nat);
    if i < n - 1 {
        lemma_decoded_pixel(data, bpp, little_endian, masks, (n - 1) as nat, i);
    }
}

/// The bytes per pixel for a pixmap format of `bits_per_pixel` bits.
pub open spec fn bytes_per_pixel_of(bits_per_pixel: u8) -> nat {
    ((bits_per_pixel + 7) / 8) as nat
}

/// Every whole pixel of `data` can be scaled with each of the masks.
pub open spec fn all_scalable(data: Seq<u8>, bpp: nat, little_endian: bool, masks: ChannelMasks) -> bool {
    forall|i: int|
        0 <= i < data.len() / bpp ==> {
            &&& channel_scalable(#[trigger] pixel_value(data, bpp, little_endian, i), masks.red)
            &&& channel_scalable(pixel_value(data, bpp, little_endian, i), masks.green)
            &&& channel_scalable(pixel_value(data, bpp, little_endian, i), masks.blue)
        }
}

/// The message of the error for a pixel width this decoder does not read.
pub open spec fn unsupported_width_message(bpp: nat) -> Seq<char> {
    "unsupported X11 pixel width: "@ + decimal(bpp) + " bytes"@
}

/// Reads one pixel of 1 to 4 bytes.
fn read_pixel(data: &[u8], start: usize, bpp: usize, little_endian: bool) -> (v: u32)
    requires
        1 <= bpp <= 4,
        start + bpp <= data@.len(),
    ensures
        v == chunk_value(data@.subrange(start as int, start + bpp), little_endian),
{
    let ghost chunk = data@.subrange(start as int, start + bpp);
    let b0 = data[start] as u32;
    if bpp == 1 {
        return b0;
    }
    let b1 = data[start + 1] as u32;
    if bpp == 2 {
        return if little_endian { b0 + b1 * 256 } else { b1 + b0 * 256 };
    }
    let b2 = data[start + 2] as u32;
    if bpp == 3 {
        return if little_endian { b0 + b1 * 256 + b2 * 65536 } else { b2 + b1 * 256 + b0 * 65536 };
    }
    let b3 = data[start + 3] as u32;
    if little_endian {
        b0 + b1 * 256 + b2 * 65536 + b3 * 16777216
    } else {
        b3 + b2 * 256 + b1 * 65536 + b0 * 16777216
    }
}

/// Converts raw pixels of `bits_per_pixel` bits each into RGBA bytes, reading
/// each channel through its mask.
pub fn decode_x11_pixels(
    data: &[u8],
    bits_per_pixel: u8,
    little_endian: bool,
    masks: ChannelMasks,
) -> (r: CaptureResult<Vec<u8>>)
    requires
        bytes_per_pixel_of(bits_per_pixel) > 0 ==> (data@.len() / bytes_per_pixel_of(bits_per_pixel)) * 4 <= usize::MAX,
        1 <= bytes_per_pixel_of(bits_per_pixel) <= 4 ==> all_scalable(
            data@,
            bytes_per_pixel_of(bits_per_pixel),
            little_endian,
            masks,
        ),
    ensures
        ({
            let bpp = bytes_per_pixel_of(bits_per_pixel);
            if bpp == 0 {
                r matches Err(CaptureError::Backend { message }) && message@
                    == "invalid X11 bytes_per_pixel value"@
            } else if bpp <= 4 {
                r matches Ok(rgba) && rgba@ == decoded_pixels(
                    data@,
                    bpp,
                    little_endian,
                    masks,
                    data@.len() / bpp,
                )
            } else if data@.len() >= bpp {
                r matches Err(CaptureError::Unsupported { message }) && message@
                    == unsupported_width_message(bpp)
            } else {
                r matches Ok(rgba) && rgba@.len() == 0
            }
        }),
{
    let bpp = (bits_per_pixel as usize + 7) / 8;
    if bpp == 0 {
        return Err(CaptureError::Backend { message: String::from_str("invalid X11 bytes_per_pixel value") });
    }
    let pixel_count = data.len() / bpp;
    let mut rgba: Vec<u8> = Vec::with_capacity(pixel_count * 4);
    if bpp > 4 {
        if data.len() >= bpp {
            let mut message = String::from_str("unsupported X11 pixel width: ");
            push_decimal(&mut message, bpp as u64);
            message.append(" bytes");
            return Err(CaptureError::Unsupported { message });
        }
        return Ok(rgba);
    }
    let mut i: usize = 0;
    while i < pixel_count
        invariant
            1 <= bpp <= 4,
            bpp == bytes_per_pixel_of(bits_per_pixel),
            pixel_count == data@.len() / (bpp as nat),
            i <= pixel_count,
            all_scalable(data@, bpp as nat, little_endian, masks),
            rgba@ == decoded_pixels(data@, bpp as nat, little_endian, masks, i as nat),
        decreases pixel_count - i,
    {
        proof {
            assert(i * bpp + bpp <= data@.len()) by (nonlinear_arith)
                requires
                    i < pixel_count,
                    pixel_count == data@.len() / (bpp as nat),
                    bpp >= 1,
            ;
            assert(data@.len() == data.len());
            assert(i * bpp >= 0) by (nonlinear_arith);
        }
        let start = i * bpp;
        let v = read_pixel(data, start, bpp, little_endian);
        proof {
            assert(v == pixel_value(data@, bpp as nat, little_endian, i as int));
            assert(channel_scalable(pixel_value(data@, bpp as nat, little_endian, i as int), masks.red));
        }
        rgba.push(scale_channel(v, masks.red));
        rgba.push(scale_channel(v, masks.green));
        rgba.push(scale_channel(v, masks.blue));
        rgba.push(255);
        proof {
            assert(rgba@ =~= decoded_pixels(data@, bpp as nat, little_endian, masks, (i + 1) as nat));
        }
        i = i + 1;
    }
    Ok(rgba)
}


/// A keyboard mapping: `keysyms_per_keycode` keysyms for every keycode,
/// starting at `min_keycode`.
#[derive(Debug, Clone)]
pub struct Keymap {
    /// The first keycode the mapping describes.
    pub min_keycode: u8,
    /// How many keysyms each keycode has.
    pub keysyms_per_keycode: u8,
    /// The keysyms of all keycodes, keycode by keycode.
    pub keysyms: Vec<u32>,
}

/// The keysyms of `keycode` in `keysyms`, or `None` when the keycode lies
/// outside the mapping.
pub open spec fn keycode_row(min_keycode: u8, per: u8, keysyms: Seq<u32>, keycode: u8) -> Option<
    Seq<u32>,
> {
    if keycode < min_keycode || per == 0 {
        None
    } else {
        let offset = (keycode - min_keycode) * per;
        if offset + per <= keysyms.len() {
            Some(keysyms.subrange(offset, offset + per))
        } else {
            None
        }
    }
}

/// The first non-zero entry of `s`.
pub open spec fn first_nonzero(s: Seq<u32>) -> Option<u32>
    decreases s.len(),
{
    if s.len() == 0 {
        None
    } else if s[0] != 0 {
        Some(s[0])
    } else {
        first_nonzero(s.drop_first())
    }
}

/// The keysym X11 code treats as the meaning of a key: its first non-zero
/// keysym.
pub open spec fn lookup_keysym_spec(keymap: Keymap, keycode: u8) -> Option<u32> {
    match keycode_row(keymap.min_keycode, keymap.keysyms_per_keycode, keymap.keysyms@, keycode) {
        Some(row) => first_nonzero(row),
        None => None,
    }
}

proof fn lemma_first_nonzero_skip(s: Seq<u32>, i: int)
    requires
        0 <= i < s.len(),
        forall|j: int| 0 <= j < i ==> s[j] == 0,
    ensures
        first_nonzero(s) == first_nonzero(s.subrange(i, s.len() as int)),
    decreases i,
{
    if i > 0 {
        lemma_first_nonzero_skip(s.drop_first(), i - 1);
        assert(s.drop_first().subrange(i - 1, s.drop_first().len() as int) =~= s.subrange(
            i,
            s.len() as int,
        ));
    } else {
        assert(s.subrange(0, s.len() as int) =~= s);
    }
}

proof fn lemma_first_nonzero_none(s: Seq<u32>)
    requires
        forall|j: int| 0 <= j < s.len() ==> s[j] == 0,
    ensures
        first_nonzero(s) is None,
    decreases s.len(),
{
    if s.len() > 0 {
        lemma_first_nonzero_none(s.drop_first());
    }
}

/// Returns the keysym of `keycode`: its first non-zero keysym in `keymap`.
pub fn lookup_keysym(keymap: &Keymap, keycode: u8) -> (r: Option<u32>)
    ensures
        r == lookup_keysym_spec(*keymap, keycode),
{
    if keycode < keymap.min_keycode || keymap.keysyms_per_keycode == 0 {
        return None;
    }
    let per = keymap.keysyms_per_keycode as usize;
    proof {
        assert((keycode - keymap.min_keycode) * per <= 255 * 255) by (nonlinear_arith)
            requires
                keycode - keymap.min_keycode <= 255,
                per <= 255,
                keycode - keymap.min_keycode >= 0,
        ;
    }
    let offset = (keycode - keymap.min_keycode) as usize * per;
    if offset + per > keymap.keysyms.len() {
        return None;
    }
    let ghost row = keymap.keysyms@.subrange(offset as int, offset + per);
    let mut i: usize = 0;
    while i < per
        invariant
            offset + per <= keymap.keysyms@.len(),
            keymap.keysyms@.len() == keymap.keysyms.len(),
            row == keymap.keysyms@.subrange(offset as int, offset + per),
            keycode_row(keymap.min_keycode, keymap.keysyms_per_keycode, keymap.keysyms@, keycode)
                == Some(row),
            row.len() == per,
            i <= per,
            forall|j: int| 0 <= j < i ==> row[j] == 0,
        decreases per - i,
    {
        let keysym = keymap.keysyms[offset + i];
        if keysym != 0 {
            proof {
                lemma_first_nonzero_skip(row, i as int);
                let rest = row.subrange(i as int, row.len() as int);
                assert(rest[0] == keysym);
                assert(first_nonzero(rest) == Some(keysym));
            }
            return Some(keysym);
        }
        i = i + 1;
    }
    proof {
        lemma_first_nonzero_none(row);
    }
    None
}

/// The index of the first group of `width` keysyms that contains `needle`.
pub open spec fn first_group_with(keysyms: Seq<u32>, width: nat, needle: u32) -> Option<nat> {
    if width == 0 {
        None
    } else if exists|g: nat|
        #![trigger group_has(keysyms, width, g, needle)]
        (g + 1) * width <= keysyms.len() && group_has(keysyms, width, g, needle) {
        Some(
            choose|g: nat|
                #![trigger group_has(keysyms, width, g, needle)]
                (g + 1) * width <= keysyms.len() && group_has(keysyms, width, g, needle) && forall|
                    h: nat,
                |
                    h < g ==> !#[trigger] group_has(keysyms, width, h, needle),
        )
    } else {
        None
    }
}

/// Group `g` of `width` keysyms contains `needle`.
pub open spec fn group_has(keysyms: Seq<u32>, width: nat, g: nat, needle: u32) -> bool {
    exists|j: int| g * width <= j < g * width + width && #[trigger] keysyms[j] == needle
}

/// The keycode whose keysyms contain `needle`, if any does: the first such
/// group of the mapping, counted from `min_keycode`, as long as its index
/// fits in a byte.
pub open spec fn find_keycode_spec(keymap: Keymap, needle: u32) -> Option<u8> {
    match first_group_with(keymap.keysyms@, keymap.keysyms_per_keycode as nat, needle) {
        Some(g) => if g <= 255 {
            Some((keymap.min_keycode + g) as u8)
        } else {
            None
        },
        None => None,
    }
}

/// Finds the keycode whose keysyms contain `needle`.
pub fn find_keycode_for_keysym(keymap: &Keymap, needle: u32) -> (r: Option<u8>)
    requires
        first_group_with(keymap.keysyms@, keymap.keysyms_per_keycode as nat, needle) matches Some(g)
            ==> (g <= 255 ==> keymap.min_keycode + g <= 255),
    ensures
        r == find_keycode_spec(*keymap, needle),
{
    if keymap.keysyms_per_keycode == 0 {
        return None;
    }
    let width = keymap.keysyms_per_keycode as usize;
    let groups = keymap.keysyms.len() / width;
    let ghost ks = keymap.keysyms@;
    let mut g: usize = 0;
    while g < groups
        invariant
            width == keymap.keysyms_per_keycode,
            width > 0,
            first_group_with(keymap.keysyms@, keymap.keysyms_per_keycode as nat, needle) matches Some(
                f,
            ) ==> (f <= 255 ==> keymap.min_keycode + f <= 255),
            ks == keymap.keysyms@,
            groups == ks.len() / (width as nat),
            g <= groups,
            forall|h: nat| h < g ==> !#[trigger] group_has(ks, width as nat, h, needle),
        decreases groups - g,
    {
        proof {
            assert((g + 1) * width <= ks.len()) by (nonlinear_arith)
                requires
                    g < groups,
                    groups == ks.len() / (width as nat),
                    width > 0,
            ;
            assert(g * width + width == (g + 1) * width) by (nonlinear_arith);
            assert(ks.len() == keymap.keysyms.len());
        }
        let base = g * width;
        let mut k: usize = 0;
        let mut found = false;
        while k < width
            invariant
                base == g * width,
                base + width <= ks.len(),
                ks == keymap.keysyms@,
                ks.len() == keymap.keysyms.len(),
                k <= width,
                found <==> exists|j: int| base <= j < base + k && #[trigger] ks[j] == needle,
            decreases width - k,
        {
            let hit = keymap.keysyms[base + k] == needle;
            if hit {
                found = true;
            }
            k = k + 1;
        }
        proof {
            assert(g * width + width == base + width);
        }
        if found {
            proof {
                assert(group_has(ks, width as nat, g as nat, needle));
                assert((g as nat + 1) * width <= ks.len());
                let first = first_group_with(ks, width as nat, needle);
                let c = choose|c: nat|
                    #![trigger group_has(ks, width as nat, c, needle)]
                    (c + 1) * (width as nat) <= ks.len() && group_has(ks, width as nat, c, needle)
                        && forall|h: nat|
                        h < c ==> !#[trigger] group_has(ks, width as nat, h, needle);
                assert((g as nat + 1) * (width as nat) <= ks.len() && group_has(ks, width as nat, g as nat, needle)
                    && forall|h: nat| h < g ==> !#[trigger] group_has(ks, width as nat, h, needle));
                if c < g {
                } else if c > g {
                }
                assert(first == Some(g as nat));
            }
            if g > 255 {
                return None;
            }
            proof {
                assert(keymap.min_keycode + g <= 255);
            }
            return Some(keymap.min_keycode + g as u8);
        }
        proof {
            assert(!group_has(ks, width as nat, g as nat, needle));
        }
        g = g + 1;
    }
    proof {
        assert forall|c: nat|
            (c + 1) * (width as nat) <= ks.len() implies !#[trigger] group_has(ks, width as nat, c, needle) by {
            if c >= groups {
                assert((c + 1) * (width as nat) > ks.len()) by (nonlinear_arith)
                    requires
                        c >= groups,
                        groups == ks.len() / (width as nat),
                        width > 0,
                ;
            }
        }
    }
    None
}


/// Returns the keysyms of `keycode`, or an empty slice when the keycode lies
/// outside the mapping.
pub fn keycode_keysyms<'a>(keymap: &'a Keymap, keycode: u8) -> (r: &'a [u32])
    ensures
        r@ == match keycode_row(keymap.min_keycode, keymap.keysyms_per_keycode, keymap.keysyms@, keycode) {
            Some(row) => row,
            None => Seq::<u32>::empty(),
        },
{
    if keycode < keymap.min_keycode || keymap.keysyms_per_keycode == 0 {
        return slice_subrange(keymap.keysyms.as_slice(), 0, 0);
    }
    let width = keymap.keysyms_per_keycode as usize;
    proof {
        assert((keycode - keymap.min_keycode) * width <= 255 * 255) by (nonlinear_arith)
            requires
                keycode - keymap.min_keycode <= 255,
                width <= 255,
                keycode - keymap.min_keycode >= 0,
        ;
    }
    let offset = (keycode - keymap.min_keycode) as usize * width;
    if offset + width > keymap.keysyms.len() {
        return slice_subrange(keymap.keysyms.as_slice(), 0, 0);
    }
    slice_subrange(keymap.keysyms.as_slice(), offset, offset + width)
}

/// The keysym of the Num Lock key.
pub const XK_NUM_LOCK: u32 = 0xff7f;

/// The modifier-mask bit of modifier index `m` (Shift, Lock, Control, Mod1 to Mod5).
pub open spec fn modifier_bit(m: int) -> u16 {
    if m == 0 {
        1
    } else if m == 1 {
        2
    } else if m == 2 {
        4
    } else if m == 3 {
        8
    } else if m == 4 {
        16
    } else if m == 5 {
        32
    } else if m == 6 {
        64
    } else {
        128
    }
}

/// Keycode `code` is bound and carries the Num Lock keysym.
pub open spec fn is_numlock_key(keymap: Keymap, code: u8) -> bool {
    &&& code != 0
    &&& keycode_row(keymap.min_keycode, keymap.keysyms_per_keycode, keymap.keysyms@, code) matches Some(
        row,
    )
    &&& row.contains(XK_NUM_LOCK)
}

/// Modifier `m` of the modifier mapping has a Num Lock key among its keycodes.
pub open spec fn modifier_has_numlock(keymap: Keymap, codes: Seq<u8>, per: nat, m: int) -> bool {
    exists|j: int| m * per <= j < m * per + per && is_numlock_key(keymap, #[trigger] codes[j])
}

/// The mask of the modifier that Num Lock is bound to: that of the first of
/// the eight modifiers with a Num Lock key, or Mod2 when none has one.
pub open spec fn numlock_mask_spec(keymap: Keymap, codes: Seq<u8>, per: nat) -> u16 {
    if exists|m: int| 0 <= m < 8 && #[trigger] modifier_has_numlock(keymap, codes, per, m) {
        modifier_bit(
            choose|m: int|
                0 <= m < 8 && #[trigger] modifier_has_numlock(keymap, codes, per, m) && forall|n: int|
                    0 <= n < m ==> !#[trigger] modifier_has_numlock(keymap, codes, per, n),
        )
    } else {
        16
    }
}

/// Whether the keysyms of `code` include the Num Lock keysym.
fn keycode_is_numlock(keymap: &Keymap, code: u8) -> (b: bool)
    ensures
        b == is_numlock_key(*keymap, code),
{
    if code == 0 {
        return false;
    }
    let keysyms = keycode_keysyms(keymap, code);
    let mut i: usize = 0;
    while i < keysyms.len()
        invariant
            i <= keysyms@.len(),
            code != 0,
            keysyms@ == match keycode_row(keymap.min_keycode, keymap.keysyms_per_keycode, keymap.keysyms@, code) {
                Some(row) => row,
                None => Seq::<u32>::empty(),
            },
            forall|j: int| 0 <= j < i ==> keysyms@[j] != XK_NUM_LOCK,
        decreases keysyms@.len() - i,
    {
        if keysyms[i] == XK_NUM_LOCK {
            proof {
                assert(keysyms@[i as int] == XK_NUM_LOCK);
                assert(keycode_row(keymap.min_keycode, keymap.keysyms_per_keycode, keymap.keysyms@, code) is Some);
                assert(keysyms@.contains(XK_NUM_LOCK));
            }
            return true;
        }
        i = i + 1;
    }
    false
}

/// Finds the modifier mask that Num Lock is bound to, from the modifier
/// mapping's keycodes (`per_modifier` keycodes for each of the eight modifiers).
pub fn numlock_mask_from_mapping(keymap: &Keymap, modifier_keycodes: &[u8], per_modifier: usize) -> (mask: u16)
    requires
        8 * per_modifier <= modifier_keycodes@.len(),
    ensures
        mask == numlock_mask_spec(*keymap, modifier_keycodes@, per_modifier as nat),
{
    let ghost codes = modifier_keycodes@;
    let mut m: usize = 0;
    while m < 8
        invariant
            m <= 8,
            8 * per_modifier <= codes.len(),
            codes == modifier_keycodes@,
            codes.len() == modifier_keycodes.len(),
            forall|n: int| 0 <= n < m ==> !#[trigger] modifier_has_numlock(*keymap, codes, per_modifier as nat, n),
        decreases 8 - m,
    {
        proof {
            assert(m * per_modifier <= 8 * per_modifier) by (nonlinear_arith)
                requires
                    m < 8,
            ;
        }
        let start = m * per_modifier;
        let mut j: usize = 0;
        let mut found = false;
        while j < per_modifier
            invariant
                start == m * per_modifier,
                m < 8,
                8 * per_modifier <= codes.len(),
                codes == modifier_keycodes@,
                codes.len() == modifier_keycodes.len(),
                j <= per_modifier,
                found <==> exists|k: int| start <= k < start + j && is_numlock_key(*keymap, #[trigger] codes[k]),
            decreases per_modifier - j,
        {
            proof {
                assert(start + j < codes.len()) by (nonlinear_arith)
                    requires
                        start == m * per_modifier,
                        m < 8,
                        j < per_modifier,
                        8 * per_modifier <= codes.len(),
                ;
            }
            if keycode_is_numlock(keymap, modifier_keycodes[start + j]) {
                found = true;
            }
            j = j + 1;
        }
        if found {
            proof {
                let p = per_modifier as nat;
                assert(modifier_has_numlock(*keymap, codes, p, m as int));
                let c = choose|c: int|
                    0 <= c < 8 && #[trigger] modifier_has_numlock(*keymap, codes, p, c) && forall|n: int|
                        0 <= n < c ==> !#[trigger] modifier_has_numlock(*keymap, codes, p, n);
                assert(0 <= m < 8 && modifier_has_numlock(*keymap, codes, p, m as int) && forall|n: int|
                    0 <= n < m ==> !#[trigger] modifier_has_numlock(*keymap, codes, p, n));
                if c < m {
                } else if c > m {
                }
                assert(c == m);
            }
            return match m {
                0 => 1,
                1 => 2,
                2 => 4,
                3 => 8,
                4 => 16,
                5 => 32,
                6 => 64,
                _ => 128,
            };
        }
        m = m + 1;
    }
    16
}

/// The key state carries exactly Control and Alt once Caps Lock, Num Lock
/// and the mouse-button bits are ignored.
pub open spec fn trigger_modifiers_spec(state: u16, numlock_mask: u16) -> bool {
    (state & !(2u16 | numlock_mask) & 0x00ffu16) == 12u16
}

/// Whether a key event's modifier state is the Ctrl+Alt trigger.
pub fn has_trigger_modifiers(state: u16, numlock_mask: u16) -> (b: bool)
    ensures
        b == trigger_modifiers_spec(state, numlock_mask),
{
    (state & !(2u16 | numlock_mask) & 0x00ffu16) == 12u16
}

/// The modifier combinations the hotkey is grabbed with: Ctrl+Alt alone and
/// with Caps Lock, Num Lock, or both.
pub fn hotkey_modifier_variants(numlock_mask: u16) -> (v: [u16; 4])
    ensures
        v@ == seq![12u16, 14u16, 12u16 | numlock_mask, 14u16 | numlock_mask],
{
    proof {
        assert(12u16 | 2u16 == 14u16) by (bit_vector);
        assert(12u16 | 2u16 | numlock_mask == 14u16 | numlock_mask) by (bit_vector);
    }
    [12u16, 12u16 | 2u16, 12u16 | numlock_mask, 12u16 | 2u16 | numlock_mask]
}

/// Every grabbed modifier combination is recognized as the trigger, as long
/// as Num Lock is not bound to Control or Alt themselves.
pub proof fn lemma_variants_trigger(numlock_mask: u16)
    requires
        numlock_mask & 12u16 == 0,
    ensures
        trigger_modifiers_spec(12u16, numlock_mask),
        trigger_modifiers_spec(14u16, numlock_mask),
        trigger_modifiers_spec(12u16 | numlock_mask, numlock_mask),
        trigger_modifiers_spec(14u16 | numlock_mask, numlock_mask),
{
    assert((12u16 & !(2u16 | numlock_mask) & 0x00ffu16) == 12u16) by (bit_vector)
        requires
            numlock_mask & 12u16 == 0,
    ;
    assert((14u16 & !(2u16 | numlock_mask) & 0x00ffu16) == 12u16) by (bit_vector)
        requires
            numlock_mask & 12u16 == 0,
    ;
    assert(((12u16 | numlock_mask) & !(2u16 | numlock_mask) & 0x00ffu16) == 12u16) by (bit_vector)
        requires
            numlock_mask & 12u16 == 0,
    ;
    assert(((14u16 | numlock_mask) & !(2u16 | numlock_mask) & 0x00ffu16) == 12u16) by (bit_vector)
        requires
            numlock_mask & 12u16 == 0,
    ;
}


/// The smaller of two coordinates.
pub open spec fn min_i16(a: i16, b: i16) -> i16 {
    if a <= b { a } else { b }
}

/// The larger of two coordinates.
pub open spec fn max_i16(a: i16, b: i16) -> i16 {
    if a >= b { a } else { b }
}

/// The rectangle spanned by the drag's two corners as `(x, y, width, height)`,
/// at least one pixel wide and tall; `None` while a corner is missing or
/// when the rectangle starts left of or above the screen origin.
pub open spec fn region_from_points_spec(start: Option<(i16, i16)>, current: Option<(i16, i16)>) -> Option<
    (u32, u32, u32, u32),
> {
    match (start, current) {
        (Some((sx, sy)), Some((cx, cy))) => {
            let x1 = min_i16(sx, cx) as int;
            let y1 = min_i16(sy, cy) as int;
            let x2 = max_i16(sx, cx) as int;
            let y2 = max_i16(sy, cy) as int;
            if x1 < 0 || y1 < 0 {
                None
            } else {
                Some(
                    (
                        x1 as u32,
                        y1 as u32,
                        (if x2 - x1 >= 1 { x2 - x1 } else { 1 }) as u32,
                        (if y2 - y1 >= 1 { y2 - y1 } else { 1 }) as u32,
                    ),
                )
            }
        },
        _ => None,
    }
}

/// The on-screen outline of a selection, in X11 rectangle terms.
#[derive(Debug, Clone, Copy, PartialEq, Eq, Structural)]
pub struct SelectionRectangle {
    /// Left edge.
    pub x: i16,
    /// Top edge.
    pub y: i16,
    /// Width minus one.
    pub width: u16,
    /// Height minus one.
    pub height: u16,
}

/// The state of a rubber-band region selection driven by pointer events.
#[derive(Debug, Clone, Copy)]
pub struct SelectionState {
    /// Where the drag started.
    pub start: Option<(i16, i16)>,
    /// Where the pointer is now.
    pub current: Option<(i16, i16)>,
    /// The region chosen by the last completed drag.
    pub final_region: Option<CaptureRegion>,
    /// Whether a drag is in progress.
    pub is_dragging: bool,
}

/// The selection's parts agree: both drag corners are known or neither, a
/// drag in progress has its corners, and a selected region is the one the
/// corners span and belongs to a finished drag.
pub open spec fn selection_consistent(s: SelectionState) -> bool {
    &&& (s.start is Some <==> s.current is Some)
    &&& s.is_dragging ==> s.start is Some
    &&& s.final_region is Some ==> !s.is_dragging && s.final_region == final_region_spec(s.start, s.current)
}

impl Default for SelectionState {
    fn default() -> (s: Self)
        ensures
            s.start is None,
            s.current is None,
            s.final_region is None,
            !s.is_dragging,
            selection_consistent(s),
    {
        SelectionState { start: None, current: None, final_region: None, is_dragging: false }
    }
}

/// The region a finished drag selects.
pub open spec fn final_region_spec(start: Option<(i16, i16)>, current: Option<(i16, i16)>) -> Option<CaptureRegion> {
    match region_from_points_spec(start, current) {
        Some((x, y, w, h)) => Some(CaptureRegion { x, y, width: w, height: h }),
        None => None,
    }
}

impl SelectionState {
    /// Starts a drag at `(x, y)`.
    pub fn begin(&mut self, x: i16, y: i16)
        ensures
            final(self).start == Some((x, y)),
            final(self).current == Some((x, y)),
            final(self).final_region is None,
            final(self).is_dragging,
    {
        self.start = Some((x, y));
        self.current = Some((x, y));
        self.final_region = None;
        self.is_dragging = true;
    }

    /// Moves the dragged corner to `(x, y)`.
    pub fn update(&mut self, x: i16, y: i16)
        ensures
            final(self).current == Some((x, y)),
            final(self).start == old(self).start,
            final(self).final_region == old(self).final_region,
            final(self).is_dragging == old(self).is_dragging,
    {
        self.current = Some((x, y));
    }

    /// Ends the drag at `(x, y)` and records the selected region.
    pub fn finish(&mut self, x: i16, y: i16)
        ensures
            final(self).current == Some((x, y)),
            final(self).start == old(self).start,
            !final(self).is_dragging,
            final(self).final_region == final_region_spec(old(self).start, Some((x, y))),
    {
        self.current = Some((x, y));
        self.is_dragging = false;
        self.final_region = match self.region_from_points() {
            Some((rx, ry, w, h)) => match CaptureRegion::new(rx, ry, w, h) {
                Ok(region) => Some(region),
                Err(_) => None,
            },
            None => None,
        };
    }

    /// The outline to draw for the current drag, if any.
    pub fn current_rectangle(&self) -> (r: Option<SelectionRectangle>)
        ensures
            r == match region_from_points_spec(self.start, self.current) {
                Some((x, y, w, h)) => Some(
                    SelectionRectangle { x: x as i16, y: y as i16, width: (w - 1) as u16, height: (h - 1) as u16 },
                ),
                None => None,
            },
    {
        match self.region_from_points() {
            Some((x, y, w, h)) => Some(
                SelectionRectangle {
                    x: x as i16,
                    y: y as i16,
                    width: (w - 1) as u16,
                    height: (h - 1) as u16,
                },
            ),
            None => None,
        }
    }

    /// The rectangle spanned by the drag as `(x, y, width, height)`.
    pub fn region_from_points(&self) -> (r: Option<(u32, u32, u32, u32)>)
        ensures
            r == region_from_points_spec(self.start, self.current),
            r matches Some((x, y, w, h)) ==> x <= 32767 && y <= 32767 && 1 <= w <= 65535 && 1 <= h
                <= 65535,
    {
        let (start_x, start_y) = match self.start {
            Some(p) => p,
            None => return None,
        };
        let (current_x, current_y) = match self.current {
            Some(p) => p,
            None => return None,
        };
        let x1 = (if start_x <= current_x { start_x } else { current_x }) as i32;
        let y1 = (if start_y <= current_y { start_y } else { current_y }) as i32;
        let x2 = (if start_x >= current_x { start_x } else { current_x }) as i32;
        let y2 = (if start_y >= current_y { start_y } else { current_y }) as i32;
        if x1 < 0 || y1 < 0 {
            return None;
        }
        let w = if x2 - x1 >= 1 { x2 - x1 } else { 1 };
        let h = if y2 - y1 >= 1 { y2 - y1 } else { 1 };
        Some((x1 as u32, y1 as u32, w as u32, h as u32))
    }
}

/// The selected region does not depend on the direction of the drag.
pub proof fn lemma_region_symmetric(a: (i16, i16), b: (i16, i16))
    ensures
        region_from_points_spec(Some(a), Some(b)) == region_from_points_spec(Some(b), Some(a)),
{
}

/// The rectangle of a drag spans its two corners on each axis separately:
/// its left edge is the smaller x of the corners and its right edge the
/// larger (one pixel wide when they coincide), and likewise for y; it is
/// missing exactly when a corner lies left of or above the screen origin.
pub proof fn lemma_region_spans_corners(a: (i16, i16), b: (i16, i16))
    ensures
        match region_from_points_spec(Some(a), Some(b)) {
            Some((x, y, w, h)) => {
                &&& x <= a.0 && x <= b.0 && (x == a.0 || x == b.0)
                &&& y <= a.1 && y <= b.1 && (y == a.1 || y == b.1)
                &&& (a.0 != b.0 ==> (a.0 <= x + w && b.0 <= x + w && (x + w == a.0 || x + w == b.0)))
                &&& (a.0 == b.0 ==> w == 1)
                &&& (a.1 != b.1 ==> (a.1 <= y + h && b.1 <= y + h && (y + h == a.1 || y + h == b.1)))
                &&& (a.1 == b.1 ==> h == 1)
            },
            None => true,
        },
        region_from_points_spec(Some(a), Some(b)) is None <==> (a.0 < 0 || b.0 < 0 || a.1 < 0 || b.1
            < 0),
{
}

/// A finished drag whose corners lie on screen always selects a region.
pub proof fn lemma_finished_drag_selects(a: (i16, i16), b: (i16, i16))
    requires
        a.0 >= 0 && a.1 >= 0 && b.0 >= 0 && b.1 >= 0,
    ensures
        final_region_spec(Some(a), Some(b)) is Some,
{
}

/// The outline drawn for a finished drag is exactly the selected region
/// (X11 rectangles count width and height from zero).
pub proof fn lemma_outline_matches_selection(a: (i16, i16), b: (i16, i16))
    ensures
        match final_region_spec(Some(a), Some(b)) {
            Some(region) => outline_spec(Some(a), Some(b)) == Some(
                SelectionRectangle {
                    x: region.x as i16,
                    y: region.y as i16,
                    width: (region.width - 1) as u16,
                    height: (region.height - 1) as u16,
                },
            ),
            None => outline_spec(Some(a), Some(b)) is None,
        },
{
}

/// In a consistent selection, the region Enter accepts is exactly the
/// outline on screen at that moment.
pub proof fn lemma_accepted_region_is_outlined(s: SelectionState)
    requires
        selection_consistent(s),
        s.final_region is Some,
    ensures
        outline_spec(s.start, s.current) == Some(
            SelectionRectangle {
                x: s.final_region->0.x as i16,
                y: s.final_region->0.y as i16,
                width: (s.final_region->0.width - 1) as u16,
                height: (s.final_region->0.height - 1) as u16,
            },
        ),
{
    let a = s.start->0;
    let b = s.current->0;
    lemma_outline_matches_selection(a, b);
}

/// The message of the error for a window with no on-screen area.
pub open spec fn no_visible_area_message() -> Seq<char> {
    "window under pointer does not have a visible on-screen area"@
}

/// The larger of two integers.
pub open spec fn max_int(a: int, b: int) -> int {
    if a >= b { a } else { b }
}

/// The smaller of two integers.
pub open spec fn min_int(a: int, b: int) -> int {
    if a <= b { a } else { b }
}

/// The on-screen part of a window at `(x, y)` of size `width` x `height`
/// (root coordinates), on a screen of `screen_width` x `screen_height`: the
/// intersection of the two rectangles, or `None` when it is empty.
pub open spec fn visible_window_spec(
    x: i16,
    y: i16,
    width: u16,
    height: u16,
    screen_width: u16,
    screen_height: u16,
) -> Option<CaptureRegion> {
    let left = max_int(x as int, 0);
    let top = max_int(y as int, 0);
    let right = min_int(x + width, screen_width as int);
    let bottom = min_int(y + height, screen_height as int);
    if right <= left || bottom <= top {
        None
    } else {
        Some(
            CaptureRegion {
                x: left as u32,
                y: top as u32,
                width: (right - left) as u32,
                height: (bottom - top) as u32,
            },
        )
    }
}

/// The visible part of a window holds exactly the pixels that lie both in
/// the window and on the screen; when there is none, no pixel lies in both.
pub proof fn lemma_visible_window_is_intersection(
    x: i16,
    y: i16,
    width: u16,
    height: u16,
    screen_width: u16,
    screen_height: u16,
    px: int,
    py: int,
)
    ensures
        ({
            let in_both = x <= px < x + width && y <= py < y + height && 0 <= px < screen_width && 0
                <= py < screen_height;
            match visible_window_spec(x, y, width, height, screen_width, screen_height) {
                Some(region) => (region.x <= px < region.x + region.width && region.y <= py < region.y
                    + region.height) <==> in_both,
                None => !in_both,
            }
        }),
{
}

/// The visible part of a window, when there is one, is non-empty, starts at
/// the window's corner moved onto the screen, and ends where the window or
/// the screen ends, whichever comes first.
pub proof fn lemma_visible_window_edges(
    x: i16,
    y: i16,
    width: u16,
    height: u16,
    screen_width: u16,
    screen_height: u16,
)
    ensures
        visible_window_spec(x, y, width, height, screen_width, screen_height) matches Some(region) ==> {
            &&& region.width > 0 && region.height > 0
            &&& region.x == (if x < 0 { 0 } else { x as int })
            &&& region.y == (if y < 0 { 0 } else { y as int })
            &&& region.x + region.width == (if x + width <= screen_width { x + width } else { screen_width as int })
            &&& region.y + region.height == (if y + height <= screen_height { y + height } else { screen_height as int })
        },
{
}

/// Clips a window's geometry to the screen and returns the visible part as
/// a capture region.
pub fn visible_window_region(
    x: i16,
    y: i16,
    width: u16,
    height: u16,
    screen_width: u16,
    screen_height: u16,
) -> (r: CaptureResult<CaptureRegion>)
    ensures
        match visible_window_spec(x, y, width, height, screen_width, screen_height) {
            Some(region) => r matches Ok(got) && got == region,
            None => r matches Err(CaptureError::InvalidRequest { message }) && message@
                == no_visible_area_message(),
        },
{
    let mut x = x as i32;
    let mut y = y as i32;
    let mut width = width as i32;
    let mut height = height as i32;
    if x < 0 {
        width = width + x;
        x = 0;
    }
    if y < 0 {
        height = height + y;
        y = 0;
    }
    let max_width = screen_width as i32 - x;
    let max_height = screen_height as i32 - y;
    if width > max_width {
        width = max_width;
    }
    if height > max_height {
        height = max_height;
    }
    if width <= 0 || height <= 0 {
        return Err(CaptureError::InvalidRequest {
            message: String::from_str("window under pointer does not have a visible on-screen area"),
        });
    }
    match CaptureRegion::new(x as u32, y as u32, width as u32, height as u32) {
        Ok(region) => Ok(region),
        Err(e) => Err(e),
    }
}


/// A pixmap format of the X server: the bits each pixel of a depth takes.
#[derive(Debug, Clone, Copy, PartialEq, Eq, Structural)]
pub struct PixmapFormat {
    /// The depth the format is for.
    pub depth: u8,
    /// Bits per pixel in images of that depth.
    pub bits_per_pixel: u8,
}

/// A visual of the X server and the channel masks its pixels use.
#[derive(Debug, Clone, Copy, PartialEq, Eq, Structural)]
pub struct VisualMasks {
    /// The visual's identifier.
    pub visual_id: u32,
    /// Its red, green and blue masks.
    pub masks: ChannelMasks,
}

/// The masks of the first visual in `visuals` with identifier `id`.
pub open spec fn find_visual_spec(visuals: Seq<VisualMasks>, id: u32) -> Option<ChannelMasks>
    decreases visuals.len(),
{
    if visuals.len() == 0 {
        None
    } else if visuals[0].visual_id == id {
        Some(visuals[0].masks)
    } else {
        find_visual_spec(visuals.drop_first(), id)
    }
}

proof fn lemma_find_visual_step(visuals: Seq<VisualMasks>, id: u32, i: int)
    requires
        0 <= i < visuals.len(),
        forall|j: int| 0 <= j < i ==> #[trigger] visuals[j].visual_id != id,
    ensures
        find_visual_spec(visuals, id) == find_visual_spec(visuals.subrange(i, visuals.len() as int), id),
    decreases i,
{
    if i > 0 {
        lemma_find_visual_step(visuals.drop_first(), id, i - 1);
        assert(visuals.drop_first().subrange(i - 1, visuals.drop_first().len() as int) =~= visuals.subrange(
            i,
            visuals.len() as int,
        ));
    } else {
        assert(visuals.subrange(0, visuals.len() as int) =~= visuals);
    }
}

proof fn lemma_find_visual_none(visuals: Seq<VisualMasks>, id: u32)
    requires
        forall|j: int| 0 <= j < visuals.len() ==> #[trigger] visuals[j].visual_id != id,
    ensures
        find_visual_spec(visuals, id) is None,
    decreases visuals.len(),
{
    if visuals.len() > 0 {
        assert(visuals[0].visual_id != id);
        assert forall|j: int| 0 <= j < visuals.drop_first().len() implies #[trigger] visuals.drop_first()[j].visual_id
            != id by {
            assert(visuals.drop_first()[j] == visuals[j + 1]);
        }
        lemma_find_visual_none(visuals.drop_first(), id);
    }
}

/// Finds the channel masks of the root window's visual.
pub fn find_root_visual(visuals: &Vec<VisualMasks>, visual_id: u32) -> (r: Option<ChannelMasks>)
    ensures
        r == find_visual_spec(visuals@, visual_id),
{
    let mut i: usize = 0;
    while i < visuals.len()
        invariant
            i <= visuals@.len(),
            forall|j: int| 0 <= j < i ==> #[trigger] visuals@[j].visual_id != visual_id,
        decreases visuals@.len() - i,
    {
        if visuals[i].visual_id == visual_id {
            proof {
                lemma_find_visual_step(visuals@, visual_id, i as int);
            }
            return Some(visuals[i].masks);
        }
        i = i + 1;
    }
    proof {
        lemma_find_visual_none(visuals@, visual_id);
    }
    None
}

/// The bits per pixel of the first pixmap format for `depth`.
pub open spec fn find_format_spec(formats: Seq<PixmapFormat>, depth: u8) -> Option<u8>
    decreases formats.len(),
{
    if formats.len() == 0 {
        None
    } else if formats[0].depth == depth {
        Some(formats[0].bits_per_pixel)
    } else {
        find_format_spec(formats.drop_first(), depth)
    }
}

proof fn lemma_find_format_step(formats: Seq<PixmapFormat>, depth: u8, i: int)
    requires
        0 <= i <= formats.len(),
        forall|j: int| 0 <= j < i ==> #[trigger] formats[j].depth != depth,
    ensures
        find_format_spec(formats, depth) == find_format_spec(formats.subrange(i, formats.len() as int), depth),
    decreases i,
{
    if i > 0 {
        lemma_find_format_step(formats.drop_first(), depth, i - 1);
        assert(formats.drop_first().subrange(i - 1, formats.drop_first().len() as int) =~= formats.subrange(
            i,
            formats.len() as int,
        ));
    } else {
        assert(formats.subrange(0, formats.len() as int) =~= formats);
    }
}

/// The message for a depth without a pixmap format.
pub open spec fn missing_format_message(depth: u8) -> Seq<char> {
    "missing pixmap format for X11 depth "@ + decimal(depth as nat)
}

/// Decoding `data` with `bits_per_pixel` and `masks` meets the decoder's
/// preconditions: the output length fits in memory and no channel scaling
/// overflows.
pub open spec fn decodable(data: Seq<u8>, bits_per_pixel: u8, little_endian: bool, masks: ChannelMasks) -> bool {
    &&& bytes_per_pixel_of(bits_per_pixel) > 0 ==> (data.len() / bytes_per_pixel_of(bits_per_pixel)) * 4
        <= usize::MAX
    &&& 1 <= bytes_per_pixel_of(bits_per_pixel) <= 4 ==> all_scalable(
        data,
        bytes_per_pixel_of(bits_per_pixel),
        little_endian,
        masks,
    )
}

/// Tells whether `data` can be decoded with `bits_per_pixel` and `masks`
/// without overflow, so that the decoder may be called.
pub fn can_decode(data: &[u8], bits_per_pixel: u8, little_endian: bool, masks: ChannelMasks) -> (b: bool)
    ensures
        b == decodable(data@, bits_per_pixel, little_endian, masks),
{
    let bpp = (bits_per_pixel as usize + 7) / 8;
    if bpp == 0 {
        return true;
    }
    let count = data.len() / bpp;
    if count as u128 * 4 > usize::MAX as u128 {
        return false;
    }
    if bpp > 4 {
        return true;
    }
    let mut i: usize = 0;
    while i < count
        invariant
            1 <= bpp <= 4,
            bpp == bytes_per_pixel_of(bits_per_pixel),
            count == data@.len() / (bpp as nat),
            i <= count,
            forall|k: int|
                0 <= k < i ==> {
                    &&& channel_scalable(#[trigger] pixel_value(data@, bpp as nat, little_endian, k), masks.red)
                    &&& channel_scalable(pixel_value(data@, bpp as nat, little_endian, k), masks.green)
                    &&& channel_scalable(pixel_value(data@, bpp as nat, little_endian, k), masks.blue)
                },
        decreases count - i,
    {
        proof {
            assert(i * bpp + bpp <= data@.len()) by (nonlinear_arith)
                requires
                    i < count,
                    count == data@.len() / (bpp as nat),
                    bpp >= 1,
            ;
            assert(data@.len() == data.len());
            assert(i * bpp >= 0) by (nonlinear_arith);
        }
        let v = read_pixel(data, i * bpp, bpp, little_endian);
        proof {
            assert(v == pixel_value(data@, bpp as nat, little_endian, i as int));
        }
        if !channel_fits(v, masks.red) || !channel_fits(v, masks.green) || !channel_fits(v, masks.blue) {
            return false;
        }
        i = i + 1;
    }
    true
}

/// Tells whether scaling the channel of `pixel` under `mask` stays in a `u32`.
fn channel_fits(pixel: u32, mask: u32) -> (b: bool)
    ensures
        b == channel_scalable(pixel, mask),
{
    if mask == 0 {
        return true;
    }
    let raw = (pixel & mask) >> mask.trailing_zeros();
    raw as u64 * 255 <= 4294967295
}

/// Converts the pixels of an X11 image of `depth` into RGBA bytes, using
/// the server's pixmap format for that depth and the visual's masks.
pub fn decode_x11_image(
    formats: &Vec<PixmapFormat>,
    depth: u8,
    masks: ChannelMasks,
    data: &[u8],
    little_endian: bool,
) -> (r: CaptureResult<Vec<u8>>)
    requires
        find_format_spec(formats@, depth) matches Some(bits) ==> decodable(data@, bits, little_endian, masks),
    ensures
        match find_format_spec(formats@, depth) {
            None => r matches Err(CaptureError::Backend { message }) && message@ == missing_format_message(depth),
            Some(bits) => {
                let bpp = bytes_per_pixel_of(bits);
                if bpp == 0 {
                    r matches Err(CaptureError::Backend { message }) && message@
                        == "invalid X11 bytes_per_pixel value"@
                } else if bpp <= 4 {
                    r matches Ok(rgba) && rgba@ == decoded_pixels(data@, bpp, little_endian, masks, data@.len() / bpp)
                } else if data@.len() >= bpp {
                    r matches Err(CaptureError::Unsupported { message }) && message@
                        == unsupported_width_message(bpp)
                } else {
                    r matches Ok(rgba) && rgba@.len() == 0
                }
            },
        },
{
    let mut i: usize = 0;
    while i < formats.len()
        invariant
            i <= formats@.len(),
            forall|j: int| 0 <= j < i ==> #[trigger] formats@[j].depth != depth,
            find_format_spec(formats@, depth) matches Some(bits) ==> decodable(data@, bits, little_endian, masks),
        decreases formats@.len() - i,
    {
        if formats[i].depth == depth {
            proof {
                lemma_find_format_step(formats@, depth, i as int);
            }
            return decode_x11_pixels(data, formats[i].bits_per_pixel, little_endian, masks);
        }
        i = i + 1;
    }
    proof {
        lemma_find_format_step(formats@, depth, formats@.len() as int);
    }
    let mut message = String::from_str("missing pixmap format for X11 depth ");
    push_decimal(&mut message, depth as u64);
    Err(CaptureError::Backend { message })
}

/// Shapes a full-screen X11 frame to the request: full screen keeps it, a
/// region crops it, and an interactive request crops it to the region the
/// user selected (or fails as the selection did).
pub fn finish_x11_capture(
    image: CapturedImage,
    area: CaptureArea,
    selection: Option<CaptureResult<CaptureRegion>>,
) -> (r: CaptureResult<CapturedImage>)
    requires
        image.wf(),
        area matches CaptureArea::Region(region) ==> crop_safe(image, region),
        area is InteractiveRegion ==> selection is Some,
        area is InteractiveRegion ==> (selection matches Some(Ok(region)) ==> crop_safe(image, region)),
    ensures
        match area {
            CaptureArea::Fullscreen => r matches Ok(img) && img == image,
            CaptureArea::Region(region) => crop_result(image, region, r),
            CaptureArea::InteractiveRegion => match selection {
                Some(Ok(region)) => crop_result(image, region, r),
                Some(Err(e)) => r == Err::<CapturedImage, CaptureError>(e),
                None => false,
            },
        },
{
    match area {
        CaptureArea::Fullscreen => Ok(image),
        CaptureArea::Region(region) => image.crop(region),
        CaptureArea::InteractiveRegion => match selection {
            Some(Ok(region)) => image.crop(region),
            Some(Err(e)) => Err(e),
            None => Err(CaptureError::InvalidRequest {
                message: String::from_str("drag to create a region before pressing Enter"),
            }),
        },
    }
}

/// The keysym of the Escape key.
pub const XK_ESCAPE: u32 = 0xff1b;

/// The keysym of the Return key.
pub const XK_RETURN: u32 = 0xff0d;

/// What happened while the user selects a region.
#[derive(Debug, Clone, Copy, PartialEq, Eq, Structural)]
pub enum SelectionEvent {
    /// A pointer button went down at a root position.
    ButtonPress { button: u8, x: i16, y: i16 },
    /// The pointer moved with a button held.
    Motion { x: i16, y: i16 },
    /// A pointer button went up at a root position.
    ButtonRelease { button: u8, x: i16, y: i16 },
    /// A key was pressed; the keysym it maps to, if any.
    KeyPress { keysym: Option<u32> },
    /// Any other event.
    Other,
}

/// What the selection loop does after an event: outlines are drawn in XOR
/// mode, so drawing one again erases it.
#[derive(Debug)]
pub enum SelectionStep {
    /// Draw `erase` (the old outline), then `draw` (the new one), and wait
    /// for the next event.
    Continue { erase: Option<SelectionRectangle>, draw: Option<SelectionRectangle> },
    /// Draw `erase` to remove the outline and end the selection with `outcome`.
    Finish { erase: Option<SelectionRectangle>, outcome: CaptureResult<CaptureRegion> },
}

/// The outline of a drag, as drawn on screen.
pub open spec fn outline_spec(start: Option<(i16, i16)>, current: Option<(i16, i16)>) -> Option<SelectionRectangle> {
    match region_from_points_spec(start, current) {
        Some((x, y, w, h)) => Some(
            SelectionRectangle { x: x as i16, y: y as i16, width: (w - 1) as u16, height: (h - 1) as u16 },
        ),
        None => None,
    }
}

/// The message for cancelling with Escape.
pub open spec fn escape_message() -> Seq<char> {
    "user pressed Escape while selecting a region"@
}

/// The message for Enter before any region was dragged.
pub open spec fn enter_without_region_message() -> Seq<char> {
    "drag to create a region before pressing Enter"@
}

/// Advances the region selection by one event. A left-button press starts a
/// drag, motion and a left-button release move its corner (the release ends
/// it), Escape cancels, and Enter accepts the last completed drag.
pub fn selection_step(state: &mut SelectionState, event: SelectionEvent) -> (step: SelectionStep)
    ensures
        selection_consistent(*old(state)) ==> selection_consistent(*final(state)),
        match event {
            SelectionEvent::ButtonPress { button, x, y } => if button == 1 {
                &&& final(state).start == Some((x, y))
                &&& final(state).current == Some((x, y))
                &&& final(state).final_region is None
                &&& final(state).is_dragging
                &&& step == (SelectionStep::Continue { erase: None, draw: None })
            } else {
                *final(state) == *old(state) && step == (SelectionStep::Continue { erase: None, draw: None })
            },
            SelectionEvent::Motion { x, y } => if old(state).is_dragging {
                &&& final(state).start == old(state).start
                &&& final(state).current == Some((x, y))
                &&& final(state).final_region == old(state).final_region
                &&& final(state).is_dragging
                &&& step == (SelectionStep::Continue {
                    erase: outline_spec(old(state).start, old(state).current),
                    draw: outline_spec(old(state).start, Some((x, y))),
                })
            } else {
                *final(state) == *old(state) && step == (SelectionStep::Continue { erase: None, draw: None })
            },
            SelectionEvent::ButtonRelease { button, x, y } => if button == 1 && old(state).is_dragging {
                &&& final(state).start == old(state).start
                &&& final(state).current == Some((x, y))
                &&& final(state).final_region == final_region_spec(old(state).start, Some((x, y)))
                &&& !final(state).is_dragging
                &&& step == (SelectionStep::Continue {
                    erase: outline_spec(old(state).start, old(state).current),
                    draw: outline_spec(old(state).start, Some((x, y))),
                })
            } else {
                *final(state) == *old(state) && step == (SelectionStep::Continue { erase: None, draw: None })
            },
            SelectionEvent::KeyPress { keysym } => {
                &&& *final(state) == *old(state)
                &&& if keysym == Some(XK_ESCAPE) {
                    step matches SelectionStep::Finish { erase, outcome: Err(CaptureError::Cancelled { message }) }
                        && erase == outline_spec(old(state).start, old(state).current)
                        && message@ == escape_message()
                } else if keysym == Some(XK_RETURN) {
                    step matches SelectionStep::Finish { erase, outcome }
                        && erase == outline_spec(old(state).start, old(state).current)
                        && match old(state).final_region {
                            Some(region) => outcome == Ok::<CaptureRegion, CaptureError>(region),
                            None => outcome matches Err(CaptureError::InvalidRequest { message })
                                && message@ == enter_without_region_message(),
                        }
                } else {
                    step == (SelectionStep::Continue { erase: None, draw: None })
                }
            },
            SelectionEvent::Other => *final(state) == *old(state) && step == (SelectionStep::Continue {
                erase: None,
                draw: None,
            }),
        },
{
    match event {
        SelectionEvent::ButtonPress { button, x, y } => {
            if button == 1 {
                state.begin(x, y);
            }
            SelectionStep::Continue { erase: None, draw: None }
        },
        SelectionEvent::Motion { x, y } => {
            if state.is_dragging {
                let erase = state.current_rectangle();
                state.update(x, y);
                let draw = state.current_rectangle();
                SelectionStep::Continue { erase, draw }
            } else {
                SelectionStep::Continue { erase: None, draw: None }
            }
        },
        SelectionEvent::ButtonRelease { button, x, y } => {
            if button == 1 && state.is_dragging {
                let erase = state.current_rectangle();
                state.finish(x, y);
                let draw = state.current_rectangle();
                SelectionStep::Continue { erase, draw }
            } else {
                SelectionStep::Continue { erase: None, draw: None }
            }
        },
        SelectionEvent::KeyPress { keysym } => match keysym {
            Some(k) => if k == XK_ESCAPE {
                SelectionStep::Finish {
                    erase: state.current_rectangle(),
                    outcome: Err(CaptureError::Cancelled {
                        message: String::from_str("user pressed Escape while selecting a region"),
                    }),
                }
            } else if k == XK_RETURN {
                let erase = state.current_rectangle();
                let outcome = match state.final_region {
                    Some(region) => Ok(region),
                    None => Err(CaptureError::InvalidRequest {
                        message: String::from_str("drag to create a region before pressing Enter"),
                    }),
                };
                SelectionStep::Finish { erase, outcome }
            } else {
                SelectionStep::Continue { erase: None, draw: None }
            },
            None => SelectionStep::Continue { erase: None, draw: None },
        },
        SelectionEvent::Other => SelectionStep::Continue { erase: None, draw: None },
    }
}

} // verus!
