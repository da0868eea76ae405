use cynthionwhisperer::trigger::{
    ensure_trigger_supported, parse_trigger_caps, parse_trigger_stage, parse_trigger_status,
    stage_from_parts, trigger_control_payload, trigger_stage_payload,
};
use cynthionwhisperer::{Error, TriggerCaps, TriggerControl, TriggerStage, TriggerStatus};

fn caps() -> TriggerCaps {
    TriggerCaps { max_stages: 4, max_pattern_len: 32, stage_payload_len: 68 }
}

#[test]
fn trigger_stage_round_trip() {
    let stage = TriggerStage {
        offset: 0x1234,
        length: 3,
        pattern: vec![0xDE, 0xAD, 0xBE],
        mask: vec![0xFF, 0x00, 0xFF],
    };
    let payload = trigger_stage_payload(0, &stage, &caps()).unwrap();
    assert_eq!(payload.len(), 68);
    assert_eq!(&payload[0..4], &[0x34, 0x12, 0x03, 0x00]);
    let mut pattern = vec![0xDE, 0xAD, 0xBE];
    pattern.extend(vec![0u8; 29]);
    assert_eq!(&payload[4..36], pattern.as_slice());
    let mut mask = vec![0xFF, 0x00, 0xFF];
    mask.extend(vec![0xFFu8; 29]);
    assert_eq!(&payload[36..68], mask.as_slice());
    assert_eq!(parse_trigger_stage(&payload), Ok(stage));
}

#[test]
fn trigger_stage_is_clamped_to_caps() {
    let stage = TriggerStage {
        offset: 7,
        length: 5,
        pattern: vec![1, 2, 3, 4, 5, 6],
        mask: vec![9, 9, 9, 9, 9, 9],
    };
    let small = TriggerCaps { max_stages: 2, max_pattern_len: 2, stage_payload_len: 68 };
    let payload = trigger_stage_payload(1, &stage, &small).unwrap();
    assert_eq!(&payload[0..6], &[7, 0, 2, 0, 1, 2]);
    assert_eq!(payload[6], 0);
    assert_eq!(&payload[36..39], &[9, 9, 0xFF]);
    let parsed = parse_trigger_stage(&payload).unwrap();
    assert_eq!(parsed, TriggerStage { offset: 7, length: 2, pattern: vec![1, 2], mask: vec![9, 9] });
}

#[test]
fn trigger_stage_long_length_is_cut_to_payload() {
    let stage = TriggerStage {
        offset: 0,
        length: 40,
        pattern: vec![0xAB; 40],
        mask: vec![0xCD; 40],
    };
    let big = TriggerCaps { max_stages: 1, max_pattern_len: 64, stage_payload_len: 68 };
    let payload = trigger_stage_payload(0, &stage, &big).unwrap();
    assert_eq!(payload[2], 32);
    assert!(payload[4..36].iter().all(|b| *b == 0xAB));
    assert!(payload[36..68].iter().all(|b| *b == 0xCD));
}

#[test]
fn trigger_stage_errors() {
    let stage = TriggerStage { offset: 0, length: 3, pattern: vec![1, 2, 3], mask: vec![1, 2, 3] };
    assert_eq!(
        trigger_stage_payload(4, &stage, &caps()),
        Err(Error::StageIndexOutOfRange { index: 4, max_stages: 4 })
    );
    let short_pattern = TriggerStage { pattern: vec![1, 2], ..stage.clone() };
    assert_eq!(
        trigger_stage_payload(0, &short_pattern, &caps()),
        Err(Error::PatternTooShort { pattern_len: 2, length: 3 })
    );
    let short_mask = TriggerStage { mask: vec![1], ..stage.clone() };
    assert_eq!(
        trigger_stage_payload(0, &short_mask, &caps()),
        Err(Error::MaskTooShort { mask_len: 1, length: 3 })
    );
}

#[test]
fn trigger_stage_response_length_is_checked() {
    assert_eq!(
        parse_trigger_stage(&[0u8; 67]),
        Err(Error::UnexpectedPayloadLength { expected: 68, got: 67 })
    );
    let mut data = vec![0u8; 68];
    data[2] = 200;
    assert_eq!(parse_trigger_stage(&data).unwrap().length, 32);
}

#[test]
fn trigger_caps_parse() {
    assert_eq!(
        parse_trigger_caps(&[8, 32, 0x44, 0x00]),
        Ok(TriggerCaps { max_stages: 8, max_pattern_len: 32, stage_payload_len: 68 })
    );
    assert_eq!(
        parse_trigger_caps(&[8, 32, 0x44]),
        Err(Error::UnexpectedPayloadLength { expected: 4, got: 3 })
    );
}

#[test]
fn trigger_status_parse() {
    assert_eq!(
        parse_trigger_status(&[0b1010, 2, 0x34, 0x12, 3]),
        Ok(TriggerStatus {
            enable: false,
            armed: true,
            output_enable: false,
            output_state: true,
            sequence_stage: 2,
            fire_count: 0x1234,
            stage_count: 3,
        })
    );
    assert_eq!(
        parse_trigger_status(&[0b0101, 0, 0, 0, 0]).map(|s| (s.enable, s.output_enable)),
        Ok((true, true))
    );
    assert_eq!(
        parse_trigger_status(&[0; 6]),
        Err(Error::UnexpectedPayloadLength { expected: 5, got: 6 })
    );
}

#[test]
fn trigger_control_payload_clamps_stage_count() {
    let control = TriggerControl { enable: true, output_enable: true, stage_count: 9 };
    assert_eq!(trigger_control_payload(&control, 4), vec![0b11, 4]);
    let control = TriggerControl { enable: false, output_enable: true, stage_count: 2 };
    assert_eq!(trigger_control_payload(&control, 4), vec![0b10, 2]);
    let control = TriggerControl { enable: true, output_enable: false, stage_count: 0 };
    assert_eq!(trigger_control_payload(&control, 4), vec![0b01, 0]);
}

#[test]
fn trigger_needs_minor_version_two() {
    assert_eq!(ensure_trigger_supported(1), Err(Error::TriggerUnsupported));
    assert_eq!(ensure_trigger_supported(2), Ok(()));
}

#[test]
fn stage_from_parts_defaults_and_checks() {
    assert_eq!(
        stage_from_parts(5, vec![1, 2, 3], None, None),
        Ok(TriggerStage { offset: 5, length: 3, pattern: vec![1, 2, 3], mask: vec![0xFF; 3] })
    );
    assert_eq!(
        stage_from_parts(5, vec![1, 2, 3], Some(vec![0x0F, 0xF0, 0x00]), Some(2)),
        Ok(TriggerStage { offset: 5, length: 2, pattern: vec![1, 2, 3], mask: vec![0x0F, 0xF0, 0x00] })
    );
    assert_eq!(
        stage_from_parts(0, vec![0; 33], None, None),
        Err(Error::PatternTooLong { pattern_len: 33 })
    );
    assert_eq!(
        stage_from_parts(0, vec![0; 3], Some(vec![0; 2]), None),
        Err(Error::MaskLengthMismatch { mask_len: 2, pattern_len: 3 })
    );
    assert_eq!(
        stage_from_parts(0, vec![0; 3], None, Some(4)),
        Err(Error::LengthExceedsPattern { length: 4, pattern_len: 3 })
    );
    assert_eq!(
        stage_from_parts(0, vec![], None, None),
        Ok(TriggerStage { offset: 0, length: 0, pattern: vec![], mask: vec![] })
    );
}
