use sentinel::protocol::{
    decode_general, decode_response, decode_statement, encode_general, encode_response,
    encode_statement, encode_status, encode_value, Command, Lookup, Request, Response,
    ResponseError, Status, BUCKET_COUNT, GENERAL_MIN_LEN, KEY_LEN, LOOKUP, MAX_FRAME_LEN,
    RESPONSE_MIN_LEN, STATEMENT_MIN_LEN,
};

const KEY: [u8; 16] = [10, 11, 12, 13, 14, 15, 16, 17, 18, 19, 20, 21, 22, 23, 24, 25];

fn general_frame(command: u8, bucket: u8, payload: &[u8]) -> Vec<u8> {
    let mut frame = vec![command, bucket];
    frame.extend_from_slice(&KEY);
    frame.extend_from_slice(payload);
    frame
}

fn all_statuses() -> Vec<(Status, u8)> {
    vec![
        (Status::Success, 0),
        (Status::UnknownCommand, 128),
        (Status::InvalidBucket, 129),
        (Status::LockFailed, 130),
        (Status::BucketOpenFailed, 131),
        (Status::KeyNotFound, 132),
        (Status::GetFailed, 133),
        (Status::SetFailed, 134),
        (Status::DeleteFailed, 135),
        (Status::TooShort, 136),
    ]
}

#[test]
fn constants_have_their_documented_values() {
    assert_eq!(KEY_LEN, 16);
    assert_eq!(GENERAL_MIN_LEN, 18);
    assert_eq!(STATEMENT_MIN_LEN, 17);
    assert_eq!(RESPONSE_MIN_LEN, 2);
    assert_eq!(MAX_FRAME_LEN, 1_048_594);
    assert_eq!(BUCKET_COUNT, 10);
    assert_eq!(LOOKUP, 1);
}

#[test]
fn status_codes_match_the_table() {
    for (status, code) in all_statuses() {
        assert_eq!(status.code(), code);
        assert_eq!(Status::from_code(code), Some(status));
        assert_eq!(status.is_success(), code == 0);
    }
}

#[test]
fn only_ten_bytes_are_status_codes() {
    let mut known = 0;
    for code in 0..=255u8 {
        match Status::from_code(code) {
            Some(status) => {
                known += 1;
                assert_eq!(status.code(), code);
            }
            None => assert!(code != 0 && !(128..=136).contains(&code)),
        }
    }
    assert_eq!(known, 10);
}

#[test]
fn command_bytes_are_one_two_three() {
    assert_eq!(Command::Get.byte(), 1);
    assert_eq!(Command::Put.byte(), 2);
    assert_eq!(Command::Del.byte(), 3);
    assert_eq!(Command::from_byte(1), Some(Command::Get));
    assert_eq!(Command::from_byte(2), Some(Command::Put));
    assert_eq!(Command::from_byte(3), Some(Command::Del));
    assert_eq!(Command::from_byte(0), None);
    assert_eq!(Command::from_byte(4), None);
    assert_eq!(Command::from_byte(255), None);
}

#[test]
fn decode_general_reads_every_field() {
    let frame = general_frame(2, 7, b"hello");
    let request = decode_general(&frame).unwrap();
    assert_eq!(request.command, Command::Put);
    assert_eq!(request.bucket, 7);
    assert_eq!(request.key, KEY);
    assert_eq!(request.payload, b"hello".to_vec());
}

#[test]
fn decode_general_accepts_an_empty_payload() {
    let frame = general_frame(2, 0, b"");
    assert_eq!(frame.len(), 18);
    let request = decode_general(&frame).unwrap();
    assert_eq!(request.command, Command::Put);
    assert!(request.payload.is_empty());
}

#[test]
fn decode_general_keeps_bytes_that_trail_a_read() {
    let frame = general_frame(1, 9, &[16, 16]);
    let request = decode_general(&frame).unwrap();
    assert_eq!(request.command, Command::Get);
    assert_eq!(request.bucket, 9);
    assert_eq!(request.payload, vec![16, 16]);
}

#[test]
fn decode_general_rejects_every_short_frame() {
    for len in 0..18usize {
        let frame = vec![1u8; len];
        assert_eq!(decode_general(&frame).unwrap_err(), Status::TooShort);
    }
}

#[test]
fn decode_general_judges_length_before_bucket_and_command() {
    let mut frame = vec![0u8; 17];
    frame[0] = 77;
    frame[1] = 42;
    assert_eq!(decode_general(&frame).unwrap_err(), Status::TooShort);
}

#[test]
fn decode_general_rejects_buckets_outside_the_table() {
    for bucket in 10..=255u8 {
        for command in [1u8, 2, 3] {
            let frame = general_frame(command, bucket, b"x");
            assert_eq!(decode_general(&frame).unwrap_err(), Status::InvalidBucket);
        }
    }
}

#[test]
fn decode_general_judges_bucket_before_command() {
    let frame = general_frame(9, 10, b"");
    assert_eq!(decode_general(&frame).unwrap_err(), Status::InvalidBucket);
}

#[test]
fn decode_general_rejects_unknown_commands() {
    for command in (0..=255u8).filter(|c| !(1..=3).contains(c)) {
        let frame = general_frame(command, 3, b"");
        assert_eq!(decode_general(&frame).unwrap_err(), Status::UnknownCommand);
    }
}

#[test]
fn encode_general_lays_out_command_bucket_key_payload() {
    let request = Request { command: Command::Del, bucket: 4, key: KEY, payload: vec![1, 2, 3] };
    let frame = encode_general(&request);
    assert_eq!(frame, general_frame(3, 4, &[1, 2, 3]));
    assert_eq!(frame.len(), 21);
}

#[test]
fn general_request_survives_encode_then_decode() {
    for (command, bucket) in [(Command::Get, 0u8), (Command::Put, 5), (Command::Del, 9)] {
        let request = Request { command, bucket, key: KEY, payload: vec![9, 8, 7, 6] };
        let decoded = decode_general(&encode_general(&request)).unwrap();
        assert_eq!(decoded.command, command);
        assert_eq!(decoded.bucket, bucket);
        assert_eq!(decoded.key, KEY);
        assert_eq!(decoded.payload, vec![9, 8, 7, 6]);
    }
}

#[test]
fn general_frame_survives_decode_then_encode() {
    let frame = general_frame(1, 2, &[0, 255, 0]);
    let request = decode_general(&frame).unwrap();
    assert_eq!(encode_general(&request), frame);
}

#[test]
fn decode_statement_reads_the_key() {
    let mut frame = vec![1u8];
    frame.extend_from_slice(&KEY);
    let lookup = decode_statement(&frame).unwrap();
    assert_eq!(lookup.key, KEY);
}

#[test]
fn decode_statement_ignores_bytes_after_the_key() {
    let mut frame = vec![1u8];
    frame.extend_from_slice(&KEY);
    frame.extend_from_slice(b"ignored");
    assert_eq!(decode_statement(&frame).unwrap().key, KEY);
}

#[test]
fn decode_statement_rejects_every_short_frame() {
    for len in 0..17usize {
        let frame = vec![1u8; len];
        assert_eq!(decode_statement(&frame).unwrap_err(), Status::TooShort);
    }
}

#[test]
fn decode_statement_rejects_unknown_commands() {
    for command in (0..=255u8).filter(|c| *c != 1) {
        let mut frame = vec![command];
        frame.extend_from_slice(&KEY);
        assert_eq!(decode_statement(&frame).unwrap_err(), Status::UnknownCommand);
    }
}

#[test]
fn encode_statement_lays_out_command_and_key() {
    let frame = encode_statement(&Lookup { key: KEY });
    assert_eq!(frame.len(), 17);
    assert_eq!(frame[0], 1);
    assert_eq!(&frame[1..], &KEY);
    assert_eq!(decode_statement(&frame).unwrap().key, KEY);
}

#[test]
fn encode_status_is_echo_and_code() {
    assert_eq!(encode_status(2, Status::Success), vec![2, 0]);
    assert_eq!(encode_status(1, Status::KeyNotFound), vec![1, 132]);
    assert_eq!(encode_status(200, Status::UnknownCommand), vec![200, 128]);
    for (status, code) in all_statuses() {
        assert_eq!(encode_status(3, status), vec![3, code]);
    }
}

#[test]
fn encode_value_puts_the_value_behind_status_zero() {
    assert_eq!(encode_value(1, b"hello"), vec![1, 0, b'h', b'e', b'l', b'l', b'o']);
    assert_eq!(encode_value(1, b""), vec![1, 0]);
}

#[test]
fn encode_response_lays_out_echo_status_payload() {
    let response = Response { command: 1, status: Status::Success, payload: vec![5, 6] };
    assert_eq!(encode_response(&response), vec![1, 0, 5, 6]);
    let refused = Response { command: 3, status: Status::DeleteFailed, payload: vec![] };
    assert_eq!(encode_response(&refused), vec![3, 135]);
}

#[test]
fn decode_response_reads_every_field() {
    let response = decode_response(&[1, 0, b'h', b'i']).unwrap();
    assert_eq!(response.command, 1);
    assert_eq!(response.status, Status::Success);
    assert_eq!(response.payload, b"hi".to_vec());
    let refused = decode_response(&[2, 134]).unwrap();
    assert_eq!(refused.command, 2);
    assert_eq!(refused.status, Status::SetFailed);
    assert!(refused.payload.is_empty());
}

#[test]
fn decode_response_rejects_truncated_frames() {
    assert_eq!(decode_response(&[]).unwrap_err(), ResponseError::Truncated);
    assert_eq!(decode_response(&[1]).unwrap_err(), ResponseError::Truncated);
}

#[test]
fn decode_response_rejects_unknown_status_bytes() {
    assert_eq!(decode_response(&[1, 1]).unwrap_err(), ResponseError::UnknownStatus);
    assert_eq!(decode_response(&[1, 127, 9]).unwrap_err(), ResponseError::UnknownStatus);
    assert_eq!(decode_response(&[1, 137]).unwrap_err(), ResponseError::UnknownStatus);
}

#[test]
fn response_survives_encode_then_decode() {
    for (status, _) in all_statuses() {
        let response = Response { command: 7, status, payload: vec![1, 2, 3] };
        let frame = encode_response(&response);
        let decoded = decode_response(&frame).unwrap();
        assert_eq!(decoded.command, 7);
        assert_eq!(decoded.status, status);
        assert_eq!(decoded.payload, vec![1, 2, 3]);
        assert_eq!(encode_response(&decoded), frame);
    }
}
