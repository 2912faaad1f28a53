use rman::{Cursor, CursorError, ReadError};

#[test]
fn reads_advance_in_input_order() {
    let data: [u8; 15] = [
        0x01, 0x02, 0x03, 0x04, 0x05, 0x06, 0x07, 0x08, 0x09, 0x0A, 0x0B, 0x0C, 0x0D, 0x0E, 0x0F,
    ];
    let mut cursor = Cursor::new(&data);
    assert_eq!(cursor.read_u8().unwrap(), 0x01);
    assert_eq!(cursor.read_u16().unwrap(), 0x0302);
    assert_eq!(cursor.read_u32().unwrap(), 0x07060504);
    assert_eq!(cursor.read_u64().unwrap(), 0x0F0E0D0C0B0A0908);
}

#[test]
fn signed_reads_reinterpret_the_bits() {
    let data = (-2i64).to_le_bytes();
    let mut cursor = Cursor::new(&data);
    assert_eq!(cursor.read_i64().unwrap(), -2);

    let data = (-3i32).to_le_bytes();
    let mut cursor = Cursor::new(&data);
    assert_eq!(cursor.read_i32().unwrap(), -3);
}

#[test]
fn reading_past_the_end_names_the_width() {
    let data: [u8; 2] = [1, 2];
    let mut cursor = Cursor::new(&data);
    assert_eq!(
        cursor.read_u32().unwrap_err(),
        CursorError::ReadError(ReadError::U32)
    );
    // the position is untouched, so a narrower read still succeeds
    assert_eq!(cursor.read_u16().unwrap(), 0x0201);
}

#[test]
fn seek_is_absolute_and_unbounded() {
    let data: [u8; 4] = [1, 2, 3, 4];
    let mut cursor = Cursor::new(&data);
    assert_eq!(cursor.seek(3).unwrap(), 3);
    assert_eq!(cursor.read_u8().unwrap(), 4);
    // a position past the end is accepted; the next read reports the miss
    assert_eq!(cursor.seek(5).unwrap(), 5);
    assert_eq!(
        cursor.read_u8().unwrap_err(),
        CursorError::ReadError(ReadError::U8)
    );
}

#[test]
fn read_exact_returns_the_requested_bytes() {
    let data: [u8; 4] = [1, 2, 3, 4];
    let mut cursor = Cursor::new(&data);
    assert_eq!(cursor.read_exact(3).unwrap(), vec![1, 2, 3]);
    assert_eq!(cursor.read_exact(2).unwrap_err(), CursorError::ReadManyError);
    assert_eq!(cursor.read_exact(1).unwrap(), vec![4]);
}
