use lazy_bytes_cast::{AsBytes, FromBytes, FromBytesCastLazy, IntoBytes};

#[test]
fn should_to_bytes() {
    let expected = [127u8, 150, 152, 0];
    let var_from: u32 = 9999999;

    assert_eq!(var_from.as_bytes(), expected);
    assert_eq!(var_from.into_bytes(), expected);
}

#[test]
fn should_from_bytes() {
    let expected: u32 = 9999999;
    let bytes = [127u8, 150, 152, 0];

    let casted: u32 = bytes.cast_to();
    assert_eq!(casted, expected);
    assert_eq!(u32::from_bytes(bytes), expected);
}
