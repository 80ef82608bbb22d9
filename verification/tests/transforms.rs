use xv2_converter::constants::EDITOR_SIZE;
use xv2_converter::constants::FLAG_LEFTOVERS;
use xv2_converter::constants::FLAG_NO_LEFTOVERS;
use xv2_converter::constants::HEADER_LEN;
use xv2_converter::constants::MISSING_LEN;
use xv2_converter::constants::PS4_SIZE;
use xv2_converter::constants::REQUIRED_PREFIX_LEN;
use xv2_converter::constants::SAV_START_EDITOR;
use xv2_converter::conversion::ConvError;
use xv2_converter::convert_auto;
use xv2_converter::has_magic_at;
use xv2_converter::pcready_to_ps4;
use xv2_converter::ps4_to_pcready;

const MAGIC: [u8; 4] = [0x23, 0x53, 0x41, 0x56];

/// Start of the region the forward transform trims from a full-size
/// console buffer.
const TRIM_START: usize = PS4_SIZE - 1 - MISSING_LEN;

fn console_buffer() -> Vec<u8> {
    let mut data = vec![0u8; PS4_SIZE];
    data[0x20..0x24].copy_from_slice(&MAGIC);
    data[0xA0..0xA4].copy_from_slice(&MAGIC);
    // recognizable content in every region that moves
    for i in 0..0x20 {
        data[i] = (0x30 + i) as u8;
    }
    data[0xA4] = 0x11;
    data[0x9F] = 0x22;
    data[0x100] = 0x33;
    data[0x7BC9F] = 0x44;
    data[0x7BCA0] = 0x55;
    data[0x90000] = 0x66;
    data[TRIM_START - 1] = 0x77;
    data[PS4_SIZE - 1] = 0x5A;
    data
}

#[test]
fn forward_no_spill_round_trip() {
    let original = console_buffer();
    let out = ps4_to_pcready(&original).unwrap();
    assert_eq!(out.editor.len(), EDITOR_SIZE);
    assert!(out.leftovers.is_none());
    assert_eq!(out.editor[13], FLAG_NO_LEFTOVERS);
    assert!(has_magic_at(&out.editor, SAV_START_EDITOR));

    let back = convert_auto(&out.editor, None).unwrap();
    assert!(!back.spill_missing);
    assert_eq!(back.console.len(), PS4_SIZE);
    assert!(has_magic_at(&back.console, 0x20));
    assert!(has_magic_at(&back.console, 0xA0));
    assert_eq!(back.console, original);
}

#[test]
fn forward_spill_round_trip() {
    let mut original = console_buffer();
    original[TRIM_START + 3] = 0xAB;
    original[PS4_SIZE - 2] = 0xCD;
    let out = ps4_to_pcready(&original).unwrap();
    assert_eq!(out.editor.len(), EDITOR_SIZE);
    assert_eq!(out.editor[13], FLAG_LEFTOVERS);
    let spilled = out.leftovers.expect("non-zero trimmed bytes must come back");
    assert_eq!(spilled.len(), MISSING_LEN);
    assert_eq!(&spilled[..], &original[TRIM_START..PS4_SIZE - 1]);

    let back = convert_auto(&out.editor, Some(&spilled)).unwrap();
    assert!(!back.spill_missing);
    assert_eq!(back.console, original);
}

#[test]
fn forward_rejects_tiny_buffer() {
    let r = ps4_to_pcready(&[0u8; 100]);
    match r {
        Err(e) => assert_eq!(e, ConvError::ConsoleTooSmall { len: 100 }),
        Ok(_) => panic!("a tiny buffer must be refused"),
    }
}

#[test]
fn forward_rejects_middle_not_past_leading_segment() {
    let len = HEADER_LEN + 9;
    let r = ps4_to_pcready(&vec![0u8; len]);
    match r {
        Err(e) => assert_eq!(e, ConvError::ConsoleTooSmall { len }),
        Ok(_) => panic!("a middle of eight bytes must be refused"),
    }
}

#[test]
fn forward_rejects_truncated_aligned_section() {
    let r = ps4_to_pcready(&vec![0u8; 1000]);
    match r {
        Err(e) => assert_eq!(
            e,
            ConvError::AlignedSectionTruncated { middle_len: 1000 - HEADER_LEN - 1, aligned_start: 0x7BCA0 - 0x80 }
        ),
        Ok(_) => panic!("a buffer ending before the aligned section must be refused"),
    }
}

#[test]
fn forward_rejects_empty_aligned_section() {
    let len = HEADER_LEN + 1 + (0x7BCA0 - 0x80);
    let r = ps4_to_pcready(&vec![0u8; len]);
    assert!(matches!(r, Err(ConvError::AlignedSectionTruncated { .. })));
}

#[test]
fn forward_rejects_missing_sentinel() {
    let mut data = vec![0u8; PS4_SIZE];
    data[0xA0..0xA4].copy_from_slice(&MAGIC);
    let r = ps4_to_pcready(&data);
    match r {
        Err(e) => assert_eq!(e, ConvError::MagicMissing { offset: SAV_START_EDITOR }),
        Ok(_) => panic!("a buffer without magic at the sentinel block must be refused"),
    }
}

#[test]
fn exact_fit_neither_pads_nor_trims() {
    let len = REQUIRED_PREFIX_LEN + 9;
    let mut data = vec![0u8; len];
    data[0x20..0x24].copy_from_slice(&MAGIC);
    data[len - 2] = 0x7E;
    let out = ps4_to_pcready(&data).unwrap();
    assert!(out.leftovers.is_none());
    assert_eq!(out.editor[13], FLAG_NO_LEFTOVERS);
    // the last prefix byte is the last middle byte: nothing was trimmed
    assert_eq!(out.editor[REQUIRED_PREFIX_LEN - 1], 0x7E);
    assert_eq!(out.editor.len(), EDITOR_SIZE);
}

#[test]
fn padding_when_console_buffer_is_short() {
    let len = REQUIRED_PREFIX_LEN + 9 - 10;
    let mut data = vec![0u8; len];
    data[0x20..0x24].copy_from_slice(&MAGIC);
    data[len - 2] = 0x7E;
    let out = ps4_to_pcready(&data).unwrap();
    assert!(out.leftovers.is_none());
    // the last middle byte lands ten bytes before the prefix end; zeros follow
    assert_eq!(out.editor[REQUIRED_PREFIX_LEN - 11], 0x7E);
    for i in REQUIRED_PREFIX_LEN - 10..REQUIRED_PREFIX_LEN {
        assert_eq!(out.editor[i], 0);
    }
}

#[test]
fn all_zero_trimmed_excess_is_discarded_silently() {
    let original = console_buffer();
    let out = ps4_to_pcready(&original).unwrap();
    assert!(out.leftovers.is_none());
    assert_eq!(out.editor[13], FLAG_NO_LEFTOVERS);
}

#[test]
fn deficit_recovery_without_spill_data() {
    let mut original = console_buffer();
    original[TRIM_START + 3] = 0xAB;
    let out = ps4_to_pcready(&original).unwrap();
    assert_eq!(out.editor[13], FLAG_LEFTOVERS);

    let back = convert_auto(&out.editor, None).unwrap();
    assert!(back.spill_missing);
    assert_eq!(back.console.len(), PS4_SIZE);
    // the recovered region is zero-filled, everything else is intact
    for i in TRIM_START..PS4_SIZE - 1 {
        assert_eq!(back.console[i], 0);
    }
    assert_eq!(&back.console[..TRIM_START], &original[..TRIM_START]);
    assert_eq!(back.console[PS4_SIZE - 1], original[PS4_SIZE - 1]);
}

#[test]
fn short_spill_data_is_used_then_zero_filled() {
    let mut original = console_buffer();
    original[TRIM_START] = 0xAB;
    let out = ps4_to_pcready(&original).unwrap();
    let editor = out.editor;

    let short = vec![0xEE; 5];
    let back = pcready_to_ps4(&editor, true, Some(&short)).unwrap();
    assert!(!back.spill_missing);
    for i in 0..5 {
        assert_eq!(back.console[TRIM_START + i], 0xEE);
    }
    for i in 5..MISSING_LEN {
        assert_eq!(back.console[TRIM_START + i], 0);
    }
}

#[test]
fn inverse_ignores_spill_data_when_flag_clear() {
    let original = console_buffer();
    let out = ps4_to_pcready(&original).unwrap();
    let extra = vec![0xEE; MISSING_LEN];
    let back = pcready_to_ps4(&out.editor, false, Some(&extra)).unwrap();
    assert!(!back.spill_missing);
    assert_eq!(back.console, original);
}

#[test]
fn inverse_rejects_wrong_size() {
    let r = pcready_to_ps4(&[0u8; 10], false, None);
    match r {
        Err(e) => assert_eq!(e, ConvError::EditorSizeMismatch { expected: EDITOR_SIZE, got: 10 }),
        Ok(_) => panic!("a wrongly sized editor buffer must be refused"),
    }
}

#[test]
fn inverse_rejects_missing_sentinel() {
    let data = vec![0u8; EDITOR_SIZE];
    let r = pcready_to_ps4(&data, false, None);
    match r {
        Err(e) => assert_eq!(e, ConvError::MagicMissing { offset: SAV_START_EDITOR }),
        Ok(_) => panic!("an editor buffer without its sentinel must be refused"),
    }
}

#[test]
fn inverse_rejects_missing_leading_sentinel() {
    let mut data = vec![0u8; EDITOR_SIZE];
    data[SAV_START_EDITOR..SAV_START_EDITOR + 4].copy_from_slice(&MAGIC);
    let r = pcready_to_ps4(&data, false, None);
    match r {
        Err(e) => assert_eq!(e, ConvError::MagicMissing { offset: 0xA0 }),
        Ok(_) => panic!("a rebuilt console buffer without its second sentinel must be refused"),
    }
}

#[test]
fn auto_rejects_buffer_without_marker() {
    let data = vec![0u8; EDITOR_SIZE];
    let r = convert_auto(&data, None);
    match r {
        Err(e) => assert_eq!(e, ConvError::MarkerUnrecognized),
        Ok(_) => panic!("a buffer without a marker must be refused"),
    }
}

#[test]
fn auto_rejects_marker_with_implausible_structure() {
    let original = console_buffer();
    let out = ps4_to_pcready(&original).unwrap();
    let mut editor = out.editor;
    editor[SAV_START_EDITOR] ^= 0xFF;
    let r = convert_auto(&editor, None);
    match r {
        Err(e) => assert_eq!(e, ConvError::MarkerStructureMismatch),
        Ok(_) => panic!("a marker with inconsistent structure must be refused"),
    }
}

#[test]
fn auto_rejects_corrupted_marker_in_full_editor_buffer() {
    let original = console_buffer();
    let out = ps4_to_pcready(&original).unwrap();
    for fixed in [0usize, 1, 2, 3, 4, 6] {
        let mut editor = out.editor.clone();
        editor[8 + fixed] ^= 0xFF;
        let r = convert_auto(&editor, None);
        match r {
            Err(e) => assert_eq!(e, ConvError::MarkerUnrecognized),
            Ok(_) => panic!("a corrupted marker must be refused, not reinterpreted"),
        }
    }
}
