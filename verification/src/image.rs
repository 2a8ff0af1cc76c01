//! Rules about incoming pixel buffers: what a dtype name says about the
//! values, whether a buffer has the right number of pixels, and where a
//! pixel lives in a row-major buffer.

use vstd::prelude::*;
use crate::text::{chars_equal, chars_of};

verus! {

/// Whether a dtype name denotes an integer type.
pub open spec fn dtype_is_integer(name: Seq<char>) -> bool {
    ||| name == seq!['i', '8']
    ||| name == seq!['u', '8']
    ||| name == seq!['i', '1', '6']
    ||| name == seq!['u', '1', '6']
    ||| name == seq!['i', '3', '2']
    ||| name == seq!['u', '3', '2']
    ||| name == seq!['i', '6', '4']
    ||| name == seq!['u', '6', '4']
}

/// Decimal places shown for hover values of a dtype.
pub open spec fn dtype_decimals(name: Seq<char>) -> usize {
    if name == seq!['f', '3', '2'] {
        4
    } else if name == seq!['f', '6', '4'] {
        6
    } else {
        0
    }
}

/// Display metadata for a dtype: whether it is integer-typed, and how many
/// decimals the hover readout shows.
pub fn dtype_meta(array_type: &str) -> (r: (bool, usize))
    ensures
        r.0 == dtype_is_integer(array_type@),
        r.1 == dtype_decimals(array_type@),
{
    let chars = chars_of(array_type);
    let k = chars.as_slice();
    let is_integer = chars_equal(k, &['i', '8']) || chars_equal(k, &['u', '8']) || chars_equal(
        k,
        &['i', '1', '6'],
    ) || chars_equal(k, &['u', '1', '6']) || chars_equal(k, &['i', '3', '2']) || chars_equal(
        k,
        &['u', '3', '2'],
    ) || chars_equal(k, &['i', '6', '4']) || chars_equal(k, &['u', '6', '4']);
    let value_decimals = if chars_equal(k, &['f', '3', '2']) {
        4
    } else if chars_equal(k, &['f', '6', '4']) {
        6
    } else {
        0
    };
    (is_integer, value_decimals)
}

/// Element type of an incoming pixel buffer.
#[derive(Clone, Copy, Debug, PartialEq, Eq, Structural)]
pub enum ArrayType {
    I8,
    U8,
    I16,
    U16,
    I32,
    U32,
    I64,
    U64,
    F32,
    F64,
}

/// The element type a dtype name selects; any unrecognized name is read as
/// 64-bit float.
pub open spec fn array_type_for(name: Seq<char>) -> ArrayType {
    if name == seq!['i', '8'] {
        ArrayType::I8
    } else if name == seq!['u', '8'] {
        ArrayType::U8
    } else if name == seq!['i', '1', '6'] {
        ArrayType::I16
    } else if name == seq!['u', '1', '6'] {
        ArrayType::U16
    } else if name == seq!['i', '3', '2'] {
        ArrayType::I32
    } else if name == seq!['u', '3', '2'] {
        ArrayType::U32
    } else if name == seq!['i', '6', '4'] {
        ArrayType::I64
    } else if name == seq!['u', '6', '4'] {
        ArrayType::U64
    } else if name == seq!['f', '3', '2'] {
        ArrayType::F32
    } else {
        ArrayType::F64
    }
}

/// Whether an element type is an integer type.
pub open spec fn array_type_is_integer(t: ArrayType) -> bool {
    !(t == ArrayType::F32 || t == ArrayType::F64)
}

impl ArrayType {
    /// The element type named by a dtype string (`"i8"`, `"u16"`, `"f32"`,
    /// ...); unrecognized names, `"f64"` among them, select 64-bit float.
    pub fn from_name(array_type: &str) -> (r: ArrayType)
        ensures
            r == array_type_for(array_type@),
    {
        let chars = chars_of(array_type);
        let k = chars.as_slice();
        if chars_equal(k, &['i', '8']) {
            ArrayType::I8
        } else if chars_equal(k, &['u', '8']) {
            ArrayType::U8
        } else if chars_equal(k, &['i', '1', '6']) {
            ArrayType::I16
        } else if chars_equal(k, &['u', '1', '6']) {
            ArrayType::U16
        } else if chars_equal(k, &['i', '3', '2']) {
            ArrayType::I32
        } else if chars_equal(k, &['u', '3', '2']) {
            ArrayType::U32
        } else if chars_equal(k, &['i', '6', '4']) {
            ArrayType::I64
        } else if chars_equal(k, &['u', '6', '4']) {
            ArrayType::U64
        } else if chars_equal(k, &['f', '3', '2']) {
            ArrayType::F32
        } else {
            ArrayType::F64
        }
    }
}

/// The hover readout treats a buffer as integer data exactly when it is
/// read with an integer element type.
pub proof fn lemma_dtype_meta_agrees_with_array_type(name: Seq<char>)
    ensures
        dtype_is_integer(name) == array_type_is_integer(array_type_for(name)),
        dtype_decimals(name) == 4 ==> array_type_for(name) == ArrayType::F32,
{
}

/// Whether a buffer of `len` pixels holds exactly a `width` x `height` image.
pub fn pixel_count_matches(len: usize, width: u32, height: u32) -> (r: bool)
    ensures
        r == (len as int == width as int * height as int),
{
    let w = width as u64;
    let h = height as u64;
    assert(w * h <= 0xffff_ffffu64 * 0xffff_ffffu64) by (nonlinear_arith)
        requires
            w <= 0xffff_ffff,
            h <= 0xffff_ffff,
    ;
    let expected = w * h;
    len as u64 == expected
}

/// Row-major position of pixel (x, y) in a `width`-wide image.
pub open spec fn pixel_offset(x: u32, y: u32, width: u32) -> int {
    y as int * width as int + x as int
}

/// Value of pixel (x, y) of a `width` x `height` row-major image, if the
/// pixel lies inside the image and the buffer.
pub fn get_pixel_value<T: Copy>(pixels: &[T], width: u32, height: u32, x: u32, y: u32) -> (r:
    Option<T>)
    ensures
        r == (if x < width && y < height && pixel_offset(x, y, width) < pixels@.len() {
            Some(pixels@[pixel_offset(x, y, width)])
        } else {
            None
        }),
{
    if x < width && y < height {
        let yy = y as u64;
        let w = width as u64;
        assert(yy * w <= 0xffff_ffffu64 * 0xffff_ffffu64) by (nonlinear_arith)
            requires
                yy <= 0xffff_ffff,
                w <= 0xffff_ffff,
        ;
        let idx = yy * w + (x as u64);
        if idx < pixels.len() as u64 {
            let i = idx as usize;
            Some(pixels[i])
        } else {
            None
        }
    } else {
        None
    }
}

/// Pixels are stored row by row: the first pixel is at the start, the next
/// pixel of a row follows directly, and the next row starts one width later.
pub proof fn lemma_pixel_offsets_are_row_major(x: u32, y: u32, width: u32)
    ensures
        pixel_offset(0, 0, width) == 0,
        x < u32::MAX ==> pixel_offset((x + 1) as u32, y, width) == pixel_offset(x, y, width) + 1,
        y < u32::MAX ==> pixel_offset(x, (y + 1) as u32, width) == pixel_offset(x, y, width)
            + width,
        pixel_offset(x, y, width) >= 0,
{
    if y < u32::MAX {
        assert(((y + 1) as u32) as int * width as int == y as int * width as int + width as int)
            by (nonlinear_arith)
            requires
                y < u32::MAX,
        ;
    }
    assert(y as int * width as int >= 0) by (nonlinear_arith);
}

} // verus!
