use nspt::wire::get_le;
use nspt::wire::put_le;

#[test]
fn put_le_writes_the_low_byte_first() {
    let mut out = vec![9u8];
    put_le(&mut out, 0x0102_0304_0506_0708, 8);
    assert_eq!(out, vec![9, 8, 7, 6, 5, 4, 3, 2, 1]);
}

#[test]
fn put_le_keeps_the_low_bytes_only() {
    let mut out = Vec::new();
    put_le(&mut out, 0x0102_0304, 2);
    assert_eq!(out, vec![4, 3]);
    put_le(&mut out, 7, 0);
    assert_eq!(out, vec![4, 3]);
}

#[test]
fn get_le_reads_at_an_offset() {
    let bytes = [0xaa, 0x34, 0x12, 0xbb];
    assert_eq!(get_le(&bytes, 1, 2), 0x1234);
    assert_eq!(get_le(&bytes, 0, 4), 0xbb12_34aa);
    assert_eq!(get_le(&bytes, 4, 0), 0);
}

#[test]
fn get_le_undoes_put_le() {
    for value in [0u64, 1, 255, 256, 65_535, 65_536, u64::MAX - 1, u64::MAX] {
        let mut out = Vec::new();
        put_le(&mut out, value, 8);
        assert_eq!(out.len(), 8);
        assert_eq!(get_le(&out, 0, 8), value);
    }
}
