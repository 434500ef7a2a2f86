use beacon_pulse::encoder::yuv::{bgra_to_nv12, bgra_to_yuv420p, pack_i420};

#[test]
fn test_white_pixel_yuv420p() {
    // YUV420p requires even dimensions — use 2×2 white BGRA frame
    let bgra = vec![
        255u8, 255, 255, 255, // pixel (0,0)
        255u8, 255, 255, 255, // pixel (1,0)
        255u8, 255, 255, 255, // pixel (0,1)
        255u8, 255, 255, 255,
    ]; // pixel (1,1)
    let (y, _u, _v) = bgra_to_yuv420p(&bgra, 2, 2);
    assert!(
        (y[0] as i32 - 235).abs() <= 2,
        "white Y should be ~235, got {}",
        y[0]
    );
}

#[test]
fn test_nv12_size() {
    let w = 1920u32;
    let h = 1080u32;
    let bgra = vec![0u8; (w * h * 4) as usize];
    let nv12 = bgra_to_nv12(&bgra, w, h);
    assert_eq!(
        nv12.len(),
        (w * h + w * h / 2) as usize,
        "NV12 buffer size mismatch"
    );
}

#[test]
fn test_nv12_white_pixel() {
    // 2×2 white BGRA frame
    let bgra = vec![255u8; 2 * 2 * 4];
    let nv12 = bgra_to_nv12(&bgra, 2, 2);
    // Y bytes should be ~235
    assert!(
        (nv12[0] as i32 - 235).abs() <= 2,
        "white Y should be ~235, got {}",
        nv12[0]
    );
    // U byte at offset 4 should be ~128 (neutral chroma)
    assert!(
        (nv12[4] as i32 - 128).abs() <= 3,
        "white U should be ~128, got {}",
        nv12[4]
    );
}

#[test]
fn test_nv12_black_pixel() {
    let bgra = vec![0u8; 2 * 2 * 4];
    let nv12 = bgra_to_nv12(&bgra, 2, 2);
    assert_eq!(nv12[0], 16, "black Y should be 16 (limited range)");
}

#[test]
fn test_roundtrip_1080p_no_panic() {
    // Just verify it doesn't panic or OOB on full-frame input
    let bgra = vec![128u8; 1920 * 1080 * 4];
    let nv12 = bgra_to_nv12(&bgra, 1920, 1080);
    assert_eq!(nv12.len(), 1920 * 1080 * 3 / 2);
}

#[test]
fn white_and_black_exact_samples() {
    let white = vec![255u8; 4];
    let black = vec![0u8, 0, 0, 255];
    let (y, u, v) = bgra_to_yuv420p(&vec![255u8; 16], 2, 2);
    assert_eq!(y, vec![235u8; 4]);
    assert_eq!(u, vec![128u8]);
    assert_eq!(v, vec![128u8]);
    let (y, u, v) = bgra_to_yuv420p(&black.repeat(4), 2, 2);
    assert_eq!(y, vec![16u8; 4]);
    assert_eq!(u, vec![128u8]);
    assert_eq!(v, vec![128u8]);
    assert_eq!(white.len(), 4);
}

#[test]
fn pure_primaries_follow_bt601_coefficients() {
    // Red, green, blue, black in a 2x2 frame (BGRA byte order).
    let bgra = vec![
        0u8, 0, 255, 255, // red
        0, 255, 0, 255, // green
        255, 0, 0, 255, // blue
        0, 0, 0, 255, // black
    ];
    let (y, u, v) = bgra_to_yuv420p(&bgra, 2, 2);
    // Y(red) = ((66*255 + 128) >> 8) + 16 = 82
    // Y(green) = ((129*255 + 128) >> 8) + 16 = 144
    // Y(blue) = ((25*255 + 128) >> 8) + 16 = 41
    assert_eq!(y, vec![82u8, 144, 41, 16]);
    // Chroma from the red pixel: U = ((-38*255 + 128) >> 8) + 128 = 90,
    // V = ((112*255 + 128) >> 8) + 128 = 240.
    assert_eq!(u, vec![90u8]);
    assert_eq!(v, vec![240u8]);
}

#[test]
fn nv12_interleaves_i420_planes() {
    let mut bgra = Vec::new();
    for i in 0..(4 * 2 * 4) {
        bgra.push((i * 37 % 256) as u8);
    }
    let (y, u, v) = bgra_to_yuv420p(&bgra, 4, 2);
    let nv12 = bgra_to_nv12(&bgra, 4, 2);
    let mut expected = y.clone();
    for k in 0..u.len() {
        expected.push(u[k]);
        expected.push(v[k]);
    }
    assert_eq!(nv12, expected);
}

#[test]
fn pack_i420_concatenates_planes() {
    let packed = pack_i420(&[1, 2, 3, 4], &[5], &[6], 2, 2);
    assert_eq!(packed, vec![1, 2, 3, 4, 5, 6]);
}

#[test]
fn empty_frames_give_empty_planes() {
    let (y, u, v) = bgra_to_yuv420p(&[], 0, 7);
    assert!(y.is_empty() && u.is_empty() && v.is_empty());
    assert!(bgra_to_nv12(&[], 3, 0).is_empty());
}

#[test]
fn i420_and_nv12_carry_the_same_samples() {
    let (w, h) = (6usize, 4usize);
    let bgra: Vec<u8> = (0..w * h * 4).map(|i| ((i * 37) % 256) as u8).collect();
    let (y, u, v) = bgra_to_yuv420p(&bgra, w, h);
    let n = bgra_to_nv12(&bgra, w as u32, h as u32);
    assert_eq!(&n[..w * h], &y[..]);
    for i in 0..(w / 2) * (h / 2) {
        assert_eq!(n[w * h + 2 * i], u[i]);
        assert_eq!(n[w * h + 2 * i + 1], v[i]);
    }
}
