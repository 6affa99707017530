use nam_audio_pipe::contract::{check_ffi_contract, silence};

#[test]
fn ffi_contract_valid_buffer() {
    let buf = [0u8; 128];
    assert!(check_ffi_contract(&buf, 0, 64).is_some());
    assert!(check_ffi_contract(&buf, 4, 60).is_some());
}

#[test]
fn ffi_contract_exact_fit() {
    let buf = [0u8; 128];
    let (n_bytes, n_samples) = check_ffi_contract(&buf, 0, 128).unwrap();
    assert_eq!(n_bytes, 128);
    assert_eq!(n_samples, 32);
}

#[test]
fn ffi_contract_misaligned_byte_count_rejected() {
    let buf = [0u8; 128];
    // 3 bytes is not a multiple of the sample size
    assert!(check_ffi_contract(&buf, 0, 3).is_none());
    // nor is 5
    assert!(check_ffi_contract(&buf, 0, 5).is_none());
    // an unaligned offset of 1 byte with 4 bytes: 4 is a whole sample
    assert!(check_ffi_contract(&buf, 1, 4).is_some());
}

#[test]
fn ffi_contract_offset_oob_rejected() {
    let buf = [0u8; 128];
    assert!(check_ffi_contract(&buf, 200, 64).is_none());
}

#[test]
fn ffi_contract_size_clamped_rejected_if_offset_oob() {
    let buf = [0u8; 128];
    // the offset is valid but the size exceeds what remains: the size is cut
    let r = check_ffi_contract(&buf, 64, 128);
    assert!(r.is_some());
    let (n_bytes, n_samples) = r.unwrap();
    assert_eq!(n_bytes, 64);
    assert_eq!(n_samples, 16);

    // an offset at the end leaves no byte
    let r = check_ffi_contract(&buf, 128, 64);
    assert!(r.is_some());
    assert_eq!(r.unwrap(), (0, 0));
}

#[test]
fn ffi_contract_misaligned_when_clamped() {
    let buf = [0u8; 5];
    // a size of 8 is cut to 5, which is no whole number of samples
    assert!(check_ffi_contract(&buf, 0, 8).is_none());
}

#[test]
fn ffi_contract_extreme_offset_and_size() {
    let buf = [0u8; 8];
    assert_eq!(check_ffi_contract(&buf, usize::MAX, usize::MAX), None);
    assert_eq!(check_ffi_contract(&buf, 4, usize::MAX), Some((4, 1)));
    assert_eq!(check_ffi_contract(&[], 0, usize::MAX), Some((0, 0)));
    assert_eq!(check_ffi_contract(&[], 1, 0), None);
}

#[test]
fn silence_clears_the_whole_buffer() {
    let mut buf = [7u8; 9];
    silence(&mut buf);
    assert_eq!(buf, [0u8; 9]);
}
