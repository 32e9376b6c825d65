use undetected_chromedriver::patch_chromedriver::patch_bytes;

fn is_letter(b: u8) -> bool {
    (97..=122).contains(&b) || (65..=90).contains(&b)
}

fn buffer_with_markers() -> Vec<u8> {
    // Two markers, each followed by an 18-byte token of '0's, padding around.
    let mut buf = Vec::new();
    buf.extend_from_slice(b"HEAD");
    buf.extend_from_slice(b"cdc_");
    buf.extend_from_slice(&[b'0'; 18]);
    buf.extend_from_slice(b"MIDDLE");
    buf.extend_from_slice(b"cdc_");
    buf.extend_from_slice(&[b'0'; 18]);
    buf.extend_from_slice(b"TAIL");
    buf
}

#[test]
fn patch_replaces_exactly_the_token_windows() {
    let input = buffer_with_markers();
    let (out, count) = patch_bytes(&input);
    assert_eq!(count, 2);
    assert_eq!(out.len(), input.len());
    // Windows: [8, 26) and [36, 54).
    for j in 0..input.len() {
        if (8..26).contains(&j) || (36..54).contains(&j) {
            assert!(is_letter(out[j]), "offset {} not a letter: {}", j, out[j]);
        } else {
            assert_eq!(out[j], input[j], "offset {} changed", j);
        }
    }
    // The marker bytes themselves are untouched.
    assert_eq!(&out[4..8], b"cdc_");
    assert_eq!(&out[32..36], b"cdc_");
}

#[test]
fn patch_without_markers_copies_byte_identically() {
    let input: Vec<u8> = b"a plain executable image with no markers at all".to_vec();
    let (out, count) = patch_bytes(&input);
    assert_eq!(count, 0);
    assert_eq!(out, input);
}

#[test]
fn patch_of_empty_buffer() {
    let input: Vec<u8> = Vec::new();
    let (out, count) = patch_bytes(&input);
    assert_eq!(count, 0);
    assert!(out.is_empty());
}

#[test]
fn repatching_keeps_length_and_rerandomizes_windows() {
    let input = buffer_with_markers();
    let (once, first_count) = patch_bytes(&input);
    let (twice, second_count) = patch_bytes(&once);
    assert_eq!(first_count, 2);
    // The markers survive the first patch, so the second finds them again.
    assert_eq!(second_count, 2);
    assert_eq!(twice.len(), input.len());
    for j in 0..input.len() {
        if (8..26).contains(&j) || (36..54).contains(&j) {
            assert!(is_letter(twice[j]));
        } else {
            assert_eq!(twice[j], input[j]);
        }
    }
}

#[test]
fn marker_near_the_end_patches_only_what_is_there() {
    // A marker followed by only 5 bytes of token.
    let mut input = Vec::new();
    input.extend_from_slice(b"xcdc_");
    input.extend_from_slice(&[b'0'; 5]);
    let (out, count) = patch_bytes(&input);
    assert_eq!(count, 1);
    assert_eq!(out.len(), input.len());
    assert_eq!(&out[0..5], b"xcdc_");
    for j in 5..10 {
        assert!(is_letter(out[j]));
    }
}
