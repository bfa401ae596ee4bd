use robot_control_server::frames::{encode_frame, FrameFormat};

#[test]
fn mjpeg_frames_lose_their_padding() {
    let raw = vec![0xFF, 0xD8, 1, 2, 0xFF, 0xD9, 0, 0];
    assert_eq!(encode_frame(FrameFormat::Mjpeg, 2, 2, raw), Ok(vec![0xFF, 0xD8, 1, 2, 0xFF, 0xD9]));
}

#[test]
fn rgb_frames_become_jpeg() {
    let raw: Vec<u8> = (0..(4 * 3 * 3)).map(|i| (i * 7) as u8).collect();
    let out = encode_frame(FrameFormat::Rgb, 4, 3, raw.clone()).unwrap();
    assert!(out.len() > 2);
    assert_eq!(&out[..2], &[0xFF, 0xD8]);
    assert_eq!(&out[out.len() - 2..], &[0xFF, 0xD9]);
    assert_ne!(out, raw);
}

#[test]
fn extra_samples_do_not_change_the_jpeg() {
    let raw: Vec<u8> = (0..12).map(|i| (i * 20) as u8).collect();
    let mut longer = raw.clone();
    longer.extend_from_slice(&[9, 9, 9]);
    assert_eq!(encode_frame(FrameFormat::Rgb, 2, 2, raw), encode_frame(FrameFormat::Rgb, 2, 2, longer));
}

#[test]
fn short_rgb_buffer_is_an_error() {
    assert_eq!(
        encode_frame(FrameFormat::Rgb, 4, 3, vec![0; 35]),
        Err("Failed to create image buffer from 35 bytes".to_string())
    );
}

#[test]
fn empty_rgb_frame_cannot_be_encoded() {
    assert!(encode_frame(FrameFormat::Rgb, 0, 0, vec![]).is_err());
}
