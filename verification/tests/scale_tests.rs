use termcam::scale::resize_frame;

fn gradient(w: usize, h: usize) -> Vec<u8> {
    let mut v = Vec::with_capacity(w * h * 3);
    for p in 0..w * h {
        v.push((10 + 7 * p) as u8);
        v.push((60 + 5 * p) as u8);
        v.push((120 + 3 * p) as u8);
    }
    v
}

#[test]
fn output_length_is_always_grid_times_three() {
    // Whatever the source dimensions, the output holds dst_w * dst_h * 3 bytes.
    for (sw, sh, dw, dh) in [(4, 2, 3, 5), (2, 2, 1, 1), (1, 1, 8, 2), (5, 4, 5, 1)] {
        let src = gradient(sw, sh);
        let out = resize_frame(&src, sw, sh, dw, dh).unwrap();
        assert_eq!(out.len(), dw * dh * 3);
    }
}

#[test]
fn same_dimensions_is_near_identity() {
    // With equal source and destination dimensions the Lanczos kernel is
    // sampled only at integer offsets, so each pixel keeps its value up to
    // interpolation tolerance.
    let (w, h) = (4, 4);
    let src = gradient(w, h);
    let out = resize_frame(&src, w, h, w, h).unwrap();
    assert_eq!(out.len(), src.len());
    for i in 0..src.len() {
        let a = src[i] as i32;
        let b = out[i] as i32;
        assert!(
            (a - b).abs() <= 1,
            "byte {} drifted: {} vs {}",
            i,
            a,
            b
        );
    }
}

#[test]
fn constant_image_stays_constant() {
    // Resampling a flat colour must reproduce that colour, both upscaling
    // and downscaling; this fails if the resampler leaves the freshly
    // allocated zero buffer untouched.
    let src = vec![50u8, 100, 150].repeat(4); // 2 x 2
    for (dw, dh) in [(5, 3), (1, 1), (2, 2), (7, 1)] {
        let out = resize_frame(&src, 2, 2, dw, dh).unwrap();
        assert_eq!(out.len(), dw * dh * 3);
        for p in 0..dw * dh {
            assert!((out[3 * p] as i32 - 50).abs() <= 1);
            assert!((out[3 * p + 1] as i32 - 100).abs() <= 1);
            assert!((out[3 * p + 2] as i32 - 150).abs() <= 1);
        }
    }
}

#[test]
fn downscale_changes_length() {
    let src = gradient(4, 4);
    let out = resize_frame(&src, 4, 4, 1, 1).unwrap();
    assert_eq!(out.len(), 3);
    assert_ne!(out.len(), src.len());
}
