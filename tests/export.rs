use sierpinski::export::{ppm_bytes, ColorRGBA, Surface};

#[test]
fn ppm_text_of_small_surface() {
    let s = Surface {
        width: 2,
        height: 1,
        buffer: vec![
            ColorRGBA { r: 255, g: 0, b: 10, a: 255 },
            ColorRGBA { r: 1, g: 2, b: 3, a: 0 },
        ],
    };
    assert_eq!(ppm_bytes(&s), b"P3 2 1 255\n255 0 10 1 2 3 ".to_vec());
}

#[test]
fn ppm_text_of_empty_surface() {
    let s = Surface { width: 0, height: 0, buffer: vec![] };
    assert_eq!(ppm_bytes(&s), b"P3 0 0 255\n".to_vec());
}
