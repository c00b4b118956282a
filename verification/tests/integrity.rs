use hiffy::integrity::{cmp, image_digest, verify_image};

// SHA-256("abc"), the classic test vector.
const ABC_DIGEST: [u8; 32] = [
    0xba, 0x78, 0x16, 0xbf, 0x8f, 0x01, 0xcf, 0xea, 0x41, 0x41, 0x40, 0xde, 0x5d, 0xae, 0x22,
    0x23, 0xb0, 0x03, 0x61, 0xa3, 0x96, 0x17, 0x7a, 0x9c, 0xb4, 0x10, 0xff, 0x61, 0xf2, 0x00,
    0x15, 0xad,
];

// SHA-256 of the empty input.
const EMPTY_DIGEST: [u8; 32] = [
    0xe3, 0xb0, 0xc4, 0x42, 0x98, 0xfc, 0x1c, 0x14, 0x9a, 0xfb, 0xf4, 0xc8, 0x99, 0x6f, 0xb9,
    0x24, 0x27, 0xae, 0x41, 0xe4, 0x64, 0x9b, 0x93, 0x4c, 0xa4, 0x95, 0x99, 0x1b, 0x78, 0x52,
    0xb8, 0x55,
];

#[test]
fn digest_of_known_vectors() {
    let d = image_digest(&vec![b'a', b'b', b'c']);
    assert_eq!(d, ABC_DIGEST.to_vec());
    let e = image_digest(&Vec::new());
    assert_eq!(e, EMPTY_DIGEST.to_vec());
}

#[test]
fn verify_image_accepts_matching_digest() {
    assert!(verify_image(&vec![b'a', b'b', b'c'], &ABC_DIGEST));
    assert!(verify_image(&Vec::new(), &EMPTY_DIGEST));
}

#[test]
fn verify_image_rejects_wrong_digest() {
    assert!(!verify_image(&vec![b'a', b'b', b'c'], &EMPTY_DIGEST));
    let mut off_by_one = ABC_DIGEST;
    off_by_one[31] ^= 1;
    assert!(!verify_image(&vec![b'a', b'b', b'c'], &off_by_one));
    // A truncated expected digest can never match.
    assert!(!verify_image(&vec![b'a', b'b', b'c'], &ABC_DIGEST[..16]));
}

#[test]
fn cmp_equal_slices() {
    assert_eq!(cmp(&[], &[]), None);
    assert_eq!(cmp(&[1, 2, 3], &[1, 2, 3]), None);
}

#[test]
fn cmp_reports_first_mismatch() {
    assert_eq!(cmp(&[1, 2, 3], &[1, 9, 3]), Some((1, 2, 9)));
    // Only the first differing index is reported.
    assert_eq!(cmp(&[0, 0, 5, 6], &[0, 0, 7, 8]), Some((2, 5, 7)));
    assert_eq!(cmp(&[4], &[5]), Some((0, 4, 5)));
}
