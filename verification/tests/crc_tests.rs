use serial_thread::SerialInterface;

#[test]
fn crc16_reference_request() {
    // The classic read-holding-registers request; high CRC byte first.
    let data = [0x01u8, 0x03, 0x00, 0x00, 0x00, 0x01];
    assert_eq!(SerialInterface::crc16(&data), 0x840A);
}

#[test]
fn crc16_reference_response() {
    let data = [0x01u8, 0x03, 0x02, 0x00, 0x05];
    assert_eq!(SerialInterface::crc16(&data), 0x7847);
}

#[test]
fn crc16_empty_input_is_seed() {
    let data: [u8; 0] = [];
    assert_eq!(SerialInterface::crc16(&data), 0xFFFF);
}

#[test]
fn crc16_is_deterministic() {
    let data = [0xDEu8, 0xAD, 0xBE, 0xEF, 0x42];
    assert_eq!(SerialInterface::crc16(&data), SerialInterface::crc16(&data));
}

#[test]
fn check_crc_accepts_valid_frame() {
    let frame = [0x01u8, 0x03, 0x00, 0x00, 0x00, 0x01, 0x84, 0x0A];
    assert!(SerialInterface::check_crc(&frame));
}

#[test]
fn check_crc_accepts_valid_response_frame() {
    let frame = [0x01u8, 0x03, 0x02, 0x00, 0x05, 0x78, 0x47];
    assert!(SerialInterface::check_crc(&frame));
}

#[test]
fn check_crc_rejects_corrupted_frame() {
    let frame = [0x01u8, 0x03, 0x00, 0x00, 0x00, 0x01, 0x84, 0x0B];
    assert!(!SerialInterface::check_crc(&frame));
}

#[test]
fn check_crc_rejects_swapped_crc_bytes() {
    let frame = [0x01u8, 0x03, 0x00, 0x00, 0x00, 0x01, 0x0A, 0x84];
    assert!(!SerialInterface::check_crc(&frame));
}

#[test]
fn check_crc_rejects_short_frames() {
    assert!(!SerialInterface::check_crc(&[]));
    assert!(!SerialInterface::check_crc(&[0x84u8]));
    assert!(!SerialInterface::check_crc(&[0x01u8, 0x84, 0x0A]));
    assert!(!SerialInterface::check_crc(&[0x01u8, 0x03, 0x84, 0x0A]));
}

#[test]
fn try_decode_finds_exact_frame() {
    let frame = vec![0x01u8, 0x03, 0x00, 0x00, 0x00, 0x01, 0x84, 0x0A];
    assert_eq!(SerialInterface::try_decode_buffer(&frame), Some(frame.clone()));
}

#[test]
fn try_decode_recovers_frame_from_noise() {
    let mut noisy = vec![0xFFu8, 0x00];
    let frame = vec![0x01u8, 0x03, 0x00, 0x00, 0x00, 0x01, 0x84, 0x0A];
    noisy.extend_from_slice(&frame);
    noisy.push(0xAA);
    assert_eq!(SerialInterface::try_decode_buffer(&noisy), Some(frame));
}

#[test]
fn try_decode_recovers_response_from_noise() {
    let mut noisy = vec![0x55u8];
    let frame = vec![0x01u8, 0x03, 0x02, 0x00, 0x05, 0x78, 0x47];
    noisy.extend_from_slice(&frame);
    noisy.push(0x13);
    noisy.push(0x37);
    assert_eq!(SerialInterface::try_decode_buffer(&noisy), Some(frame));
}

#[test]
fn try_decode_rejects_buffer_without_frame() {
    let junk = vec![0x00u8, 0x00, 0x00, 0x00, 0x00, 0x00, 0x00];
    assert_eq!(SerialInterface::try_decode_buffer(&junk), None);
}

#[test]
fn try_decode_never_matches_short_buffers() {
    assert_eq!(SerialInterface::try_decode_buffer(&[]), None);
    assert_eq!(SerialInterface::try_decode_buffer(&[0x01u8, 0x03, 0x00, 0x00]), None);
}

#[test]
fn try_decode_result_is_at_least_five_bytes() {
    // Whatever the scanner returns must be a frame of five or more bytes.
    let mut noisy = vec![0x11u8, 0x22];
    noisy.extend_from_slice(&[0x01u8, 0x03, 0x02, 0x00, 0x05, 0x78, 0x47]);
    let found = SerialInterface::try_decode_buffer(&noisy).expect("frame expected");
    assert!(found.len() >= 5);
    assert!(SerialInterface::check_crc(&found));
}
