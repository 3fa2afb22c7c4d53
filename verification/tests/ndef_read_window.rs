use solo2::ndef::read_window;

/// A `ReadBinary` window must never let `offset + len` exceed the file —
/// any over-large offset must clamp, not underflow or index out of bounds.
#[test]
fn read_window_never_exceeds_file() {
    // offset past EOF → empty (the file shrank 88 → 18).
    assert_eq!(read_window(18, 50, 86), (18, 0));
    assert_eq!(read_window(88, 2, 86), (2, 86)); // exact read of override
    assert_eq!(read_window(18, 2, 86), (2, 16)); // length clamped to avail
    assert_eq!(read_window(18, 18, 0), (18, 0)); // offset == len
    assert_eq!(read_window(88, 0, 0), (0, 88)); // expected 0 → whole file

    // Exhaustive: no (len, offset, expected) yields offset + len > file_len.
    for file_len in [0usize, 1, 2, 18, 88, 1024] {
        for offset in 0..file_len + 20 {
            for expected in [0usize, 1, file_len, file_len + 5, 9999] {
                let (o, l) = read_window(file_len, offset, expected);
                assert!(
                    o + l <= file_len,
                    "fl={file_len} off={offset} exp={expected}"
                );
            }
        }
    }
}
