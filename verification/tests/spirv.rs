use hello_samples::spirv::{spirv_words, SpirvError};

#[test]
fn words_are_read_least_byte_first() {
    let data = [0x03, 0x02, 0x23, 0x07, 0x00, 0x00, 0x01, 0x00];
    assert_eq!(spirv_words(&data), Ok(vec![0x0723_0203, 0x0001_0000]));
}

#[test]
fn words_match_the_standard_library() {
    let data: Vec<u8> = (0..64u32).map(|i| (i * 37 + 11) as u8).collect();
    let words = spirv_words(&data).unwrap();
    assert_eq!(words.len(), 16);
    for (i, w) in words.iter().enumerate() {
        let bytes = [data[4 * i], data[4 * i + 1], data[4 * i + 2], data[4 * i + 3]];
        assert_eq!(*w, u32::from_le_bytes(bytes));
    }
}

#[test]
fn empty_file_has_no_words() {
    assert_eq!(spirv_words(&[]), Ok(vec![]));
}

#[test]
fn extreme_words() {
    assert_eq!(spirv_words(&[0xFF, 0xFF, 0xFF, 0xFF]), Ok(vec![u32::MAX]));
    assert_eq!(spirv_words(&[0, 0, 0, 0x80]), Ok(vec![0x8000_0000]));
    assert_eq!(spirv_words(&[1, 0, 0, 0]), Ok(vec![1]));
}

#[test]
fn misaligned_file_is_refused() {
    assert_eq!(spirv_words(&[1]), Err(SpirvError::Misaligned));
    assert_eq!(spirv_words(&[1, 2]), Err(SpirvError::Misaligned));
    assert_eq!(spirv_words(&[1, 2, 3]), Err(SpirvError::Misaligned));
    assert_eq!(spirv_words(&[1, 2, 3, 4, 5]), Err(SpirvError::Misaligned));
}

#[test]
fn misalignment_in_words() {
    assert_eq!(SpirvError::Misaligned.message(), "SPIR-V file size not aligned to 4");
}
