use motion_cam::frame_viewer::text_origin;
use motion_cam::frame::{rgb_bgr_swap, yuyv_to_bgr, Colorspace, ParseError};

fn float_b(y: u8, u: u8) -> u8 {
    (y as f64 + (1.772 * (u as f64 - 128.0))) as u8
}
fn float_g(y: u8, u: u8, v: u8) -> u8 {
    (y as f64 - (0.34414 * (u as f64 - 128.0)) - (0.71414 * (v as f64 - 128.0))) as u8
}
fn float_r(y: u8, v: u8) -> u8 {
    (y as f64 + 1.402 * (v as f64 - 128.0)) as u8
}

#[test]
fn colorspace_names() {
    assert_eq!(Colorspace::str("RGB"), Ok(Colorspace::RGB));
    assert_eq!(Colorspace::str("BGR"), Ok(Colorspace::BGR));
    assert_eq!(Colorspace::str("YUYV"), Ok(Colorspace::YUYV));
    assert_eq!(Colorspace::str("yuyv"), Err(ParseError::VariantNotFound));
    assert_eq!(Colorspace::str("MJPG"), Err(ParseError::VariantNotFound));
    assert_eq!(Colorspace::YUYV.as_str(), "YUYV");
    assert_eq!(Colorspace::RGB.as_str(), "RGB");
}

#[test]
fn supported_conversions() {
    assert!(Colorspace::RGB.supports_conversion(Colorspace::BGR));
    assert!(Colorspace::BGR.supports_conversion(Colorspace::RGB));
    assert!(Colorspace::YUYV.supports_conversion(Colorspace::BGR));
    assert!(Colorspace::YUYV.supports_conversion(Colorspace::YUYV));
    assert!(!Colorspace::YUYV.supports_conversion(Colorspace::RGB));
    assert!(!Colorspace::RGB.supports_conversion(Colorspace::YUYV));
    assert!(!Colorspace::BGR.supports_conversion(Colorspace::YUYV));
}

#[test]
fn swap_exchanges_red_and_blue() {
    let mut buf = vec![1u8, 2, 3, 4, 5, 6];
    rgb_bgr_swap(&mut buf);
    assert_eq!(buf, vec![3, 2, 1, 6, 5, 4]);
    rgb_bgr_swap(&mut buf);
    assert_eq!(buf, vec![1, 2, 3, 4, 5, 6]);
    let mut empty: Vec<u8> = vec![];
    rgb_bgr_swap(&mut empty);
    assert!(empty.is_empty());
}

#[test]
fn convert_buf_round_trip() {
    let buf = vec![10u8, 20, 30, 40, 50, 60, 70, 80, 90];
    let bgr = Colorspace::RGB.convert_buf(buf.clone(), Colorspace::BGR);
    assert_eq!(bgr, vec![30, 20, 10, 60, 50, 40, 90, 80, 70]);
    let back = Colorspace::BGR.convert_buf(bgr, Colorspace::RGB);
    assert_eq!(back, buf);
    assert_eq!(Colorspace::RGB.convert_buf(buf.clone(), Colorspace::RGB), buf);
    assert_eq!(Colorspace::YUYV.convert_buf(vec![1, 2, 3], Colorspace::YUYV), vec![1, 2, 3]);
}

#[test]
fn yuyv_expands_two_pixels_per_group() {
    // Neutral chroma: every channel equals the luma.
    assert_eq!(yuyv_to_bgr(&[100, 128, 200, 128]), vec![100, 100, 100, 200, 200, 200]);
    // Dark luma with a strong blue difference: green falls below zero and is held at 0.
    assert_eq!(yuyv_to_bgr(&[0, 255, 0, 128]), vec![225, 0, 0, 225, 0, 0]);
    assert_eq!(yuyv_to_bgr(&[255, 0, 255, 255]), vec![28, 208, 255, 28, 208, 255]);
    assert!(yuyv_to_bgr(&[]).is_empty());
    let out = Colorspace::YUYV.convert_buf(vec![16, 128, 235, 128, 81, 90, 81, 240], Colorspace::BGR);
    assert_eq!(out.len(), 12);
    assert_eq!(&out[0..6], &[16, 16, 16, 235, 235, 235]);
}

#[test]
fn yuyv_blue_and_red_agree_with_float_formula() {
    for y in 0..=255u8 {
        for c in 0..=255u8 {
            let out = yuyv_to_bgr(&[y, c, y, c]);
            assert_eq!(out[0], float_b(y, c), "blue y={} u={}", y, c);
            assert_eq!(out[2], float_r(y, c), "red y={} v={}", y, c);
        }
    }
}

#[test]
fn yuyv_green_agrees_with_float_formula_up_to_rounding() {
    // The exact formula and f64 arithmetic differ only where the exact green is
    // a whole number that f64 computes a hair below: u = 28, v = 228.
    let mut differences = 0;
    for u in 0..=255u8 {
        for v in 0..=255u8 {
            for y in 0..=255u8 {
                let exact = yuyv_to_bgr(&[y, u, y, v])[1];
                let float = float_g(y, u, v);
                if exact != float {
                    assert_eq!((u, v), (28, 228));
                    assert_eq!(exact, float + 1);
                    differences += 1;
                }
            }
        }
    }
    assert_eq!(differences, 72);
}

#[test]
fn time_text_origin() {
    assert_eq!(text_origin(640, 480), (213, 400));
    assert_eq!(text_origin(0, 5), (0, 5));
}
