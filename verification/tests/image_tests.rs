use viewarr::image::{dtype_meta, get_pixel_value, pixel_count_matches, ArrayType};
use viewarr::markers::{flatten_markers, markers_from_flat};

#[test]
fn dtype_meta_for_each_type() {
    for t in ["i8", "u8", "i16", "u16", "i32", "u32", "i64", "u64"] {
        assert_eq!(dtype_meta(t), (true, 0), "{t}");
    }
    assert_eq!(dtype_meta("f32"), (false, 4));
    assert_eq!(dtype_meta("f64"), (false, 6));
    assert_eq!(dtype_meta("f16"), (false, 0));
    assert_eq!(dtype_meta(""), (false, 0));
    assert_eq!(dtype_meta("I8"), (false, 0));
}

#[test]
fn pixel_count_must_match_dimensions() {
    assert!(pixel_count_matches(6, 3, 2));
    assert!(!pixel_count_matches(5, 3, 2));
    assert!(!pixel_count_matches(7, 3, 2));
    assert!(pixel_count_matches(0, 0, 5));
    assert!(!pixel_count_matches(usize::MAX, u32::MAX, u32::MAX));
}

#[test]
fn pixel_lookup_is_row_major() {
    // 3 wide, 2 high.
    let pixels = vec![10.0, 11.0, 12.0, 20.0, 21.0, 22.0];
    assert_eq!(get_pixel_value(&pixels, 3, 2, 0, 0), Some(10.0));
    assert_eq!(get_pixel_value(&pixels, 3, 2, 2, 0), Some(12.0));
    assert_eq!(get_pixel_value(&pixels, 3, 2, 1, 1), Some(21.0));
    assert_eq!(get_pixel_value(&pixels, 3, 2, 3, 0), None);
    assert_eq!(get_pixel_value(&pixels, 3, 2, 0, 2), None);
    // Short buffer: in range of the image but not of the data.
    assert_eq!(get_pixel_value(&pixels[..4], 3, 2, 2, 1), None);
    assert_eq!(get_pixel_value(&pixels[..4], 3, 2, 0, 1), Some(20.0));
}

#[test]
fn markers_flatten_and_parse() {
    let markers = vec![(10.5f32, 20.25f32), (100.0, 42.0)];
    let flat = flatten_markers(&markers);
    assert_eq!(flat, vec![10.5, 20.25, 100.0, 42.0]);
    assert_eq!(markers_from_flat(&flat), Some(markers));
    assert_eq!(markers_from_flat(&[1.0f32, 2.0, 3.0]), None);
    assert_eq!(markers_from_flat::<f32>(&[]), Some(vec![]));
    assert_eq!(flatten_markers::<f32>(&[]), Vec::<f32>::new());
}

#[test]
fn array_type_from_name() {
    assert_eq!(ArrayType::from_name("i8"), ArrayType::I8);
    assert_eq!(ArrayType::from_name("u8"), ArrayType::U8);
    assert_eq!(ArrayType::from_name("i16"), ArrayType::I16);
    assert_eq!(ArrayType::from_name("u16"), ArrayType::U16);
    assert_eq!(ArrayType::from_name("i32"), ArrayType::I32);
    assert_eq!(ArrayType::from_name("u32"), ArrayType::U32);
    assert_eq!(ArrayType::from_name("i64"), ArrayType::I64);
    assert_eq!(ArrayType::from_name("u64"), ArrayType::U64);
    assert_eq!(ArrayType::from_name("f32"), ArrayType::F32);
    assert_eq!(ArrayType::from_name("f64"), ArrayType::F64);
    // Unrecognized names are read as 64-bit floats.
    assert_eq!(ArrayType::from_name("float64"), ArrayType::F64);
    assert_eq!(ArrayType::from_name(""), ArrayType::F64);
}
