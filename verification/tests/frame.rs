use elmulator::error::Error;
use elmulator::frame::{checksum_of, generate_frame, generate_kwp_response, u16_be_bytes};

#[test]
fn test_response_generation_2_byte() {
    let generated_result = generate_kwp_response(0x0C, &0x0000u16.to_be_bytes());
    let actual_response: Vec<u8> = vec![0x84, 0xF0, 0x10, 0x61, 0x0C, 0x00, 0x00, 0xF1];
    assert_eq!(generated_result, actual_response, "test_response_generation_2_byte test 1 failed");

    let generated_result = generate_kwp_response(0x0C, &0x1623u16.to_be_bytes());
    let actual_response: Vec<u8> = vec![0x84, 0xF0, 0x10, 0x61, 0x0C, 0x16, 0x23, 0x2a];
    assert_eq!(generated_result, actual_response, "test_response_generation_2_byte test 2 failed");
}

#[test]
fn test_response_generation_1_byte() {
    let generated_result = generate_kwp_response(0x05, &0x7Eu8.to_be_bytes());
    let actual_response: Vec<u8> = vec![0x84, 0xF0, 0x10, 0x61, 0x05, 0x7E, 0x68];
    assert_eq!(generated_result, actual_response, "test_response_generation_1_byte test 1 failed");

    let generated_result = generate_kwp_response(0x05, &0x7Du8.to_be_bytes());
    let actual_response: Vec<u8> = vec![0x84, 0xF0, 0x10, 0x61, 0x05, 0x7D, 0x67];
    assert_eq!(generated_result, actual_response, "test_response_generation_1_byte test 2 failed");
}

#[test]
fn checksum_of_nothing_is_zero() {
    assert_eq!(checksum_of(&[]), 0x00);
}

#[test]
fn checksum_of_one_byte_is_the_byte() {
    assert_eq!(checksum_of(&[0x5A]), 0x5A);
}

#[test]
fn checksum_wraps_at_eight_bits() {
    assert_eq!(checksum_of(&[0xFF, 0x02]), 0x01);
    assert_eq!(checksum_of(&[0x80, 0x80]), 0x00);
    assert_eq!(checksum_of(&[0xFF, 0xFF, 0xFF]), 0xFD);
}

#[test]
fn checksum_is_a_sum_and_not_a_complement() {
    // 0x84 + 0xF0 + 0x10 + 0x61 = 0x1E5, of which the low byte is 0xE5.
    assert_eq!(checksum_of(&[0x84, 0xF0, 0x10, 0x61]), 0xE5);
}

#[test]
fn checksum_of_every_one_byte_frame() {
    for request in 0..=255u8 {
        for value in 0..=255u8 {
            let frame = generate_kwp_response(request, &[value]);
            let expected = (0x84u32 + 0xF0 + 0x10 + 0x61 + request as u32 + value as u32) % 256;
            assert_eq!(frame.len(), 7);
            assert_eq!(frame[6] as u32, expected);
            assert_eq!(&frame[..6], &[0x84, 0xF0, 0x10, 0x61, request, value]);
        }
    }
}

#[test]
fn checksum_of_two_byte_frames() {
    for request in [0x00u8, 0x05, 0x0C, 0x7F, 0xFF] {
        for hi in 0..=255u8 {
            for lo in 0..=255u8 {
                let frame = generate_kwp_response(request, &[hi, lo]);
                let expected = (0x84u32 + 0xF0 + 0x10 + 0x61 + request as u32 + hi as u32
                    + lo as u32)
                    % 256;
                assert_eq!(frame.len(), 8);
                assert_eq!(frame[7] as u32, expected);
                assert_eq!(&frame[..7], &[0x84, 0xF0, 0x10, 0x61, request, hi, lo]);
            }
        }
    }
}

#[test]
fn two_byte_payload_keeps_its_order() {
    let frame = generate_kwp_response(0x0C, &[0x16, 0x23]);
    assert_eq!(frame[5], 0x16);
    assert_eq!(frame[6], 0x23);
    let swapped = generate_kwp_response(0x0C, &[0x23, 0x16]);
    assert_eq!(swapped[5], 0x23);
    assert_eq!(swapped[6], 0x16);
}

#[test]
fn generate_frame_accepts_one_and_two_bytes() {
    assert_eq!(
        generate_frame(0x05, &[0x7E]),
        Ok(vec![0x84, 0xF0, 0x10, 0x61, 0x05, 0x7E, 0x68])
    );
    assert_eq!(
        generate_frame(0x0C, &[0x16, 0x23]),
        Ok(vec![0x84, 0xF0, 0x10, 0x61, 0x0C, 0x16, 0x23, 0x2A])
    );
    assert_eq!(
        generate_frame(0x0C, &[0x00, 0x00]),
        Ok(vec![0x84, 0xF0, 0x10, 0x61, 0x0C, 0x00, 0x00, 0xF1])
    );
    assert_eq!(
        generate_frame(0x05, &[0x7D]),
        Ok(vec![0x84, 0xF0, 0x10, 0x61, 0x05, 0x7D, 0x67])
    );
}

#[test]
fn generate_frame_refuses_an_empty_payload() {
    assert_eq!(generate_frame(0x0C, &[]), Err(Error::InvalidPayloadLength));
}

#[test]
fn generate_frame_refuses_three_bytes() {
    assert_eq!(generate_frame(0x0C, &[0x01, 0x02, 0x03]), Err(Error::InvalidPayloadLength));
}

#[test]
fn generate_frame_refuses_a_long_payload() {
    let payload = vec![0u8; 300];
    assert_eq!(generate_frame(0x00, &payload), Err(Error::InvalidPayloadLength));
}

#[test]
fn generate_frame_agrees_with_generate_kwp_response() {
    for request in [0x00u8, 0x05, 0x0C, 0xFF] {
        assert_eq!(generate_frame(request, &[0x42]), Ok(generate_kwp_response(request, &[0x42])));
        assert_eq!(
            generate_frame(request, &[0x42, 0x24]),
            Ok(generate_kwp_response(request, &[0x42, 0x24]))
        );
    }
}

#[test]
fn u16_is_split_most_significant_byte_first() {
    assert_eq!(u16_be_bytes(0x1623), [0x16, 0x23]);
    assert_eq!(u16_be_bytes(0x0000), [0x00, 0x00]);
    assert_eq!(u16_be_bytes(0x00FF), [0x00, 0xFF]);
    assert_eq!(u16_be_bytes(0xFF00), [0xFF, 0x00]);
    assert_eq!(u16_be_bytes(0xFFFF), [0xFF, 0xFF]);
}

#[test]
fn u16_split_agrees_with_std() {
    for value in 0..=u16::MAX {
        assert_eq!(u16_be_bytes(value), value.to_be_bytes());
    }
}
