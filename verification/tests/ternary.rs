use bee::ternary::common::{BinaryRepresentation, U32Repr, U8Repr, BINARY_LEN_IN_U32, BINARY_LEN_IN_U8};

#[test]
fn u8_repr_iterates_in_order() {
    let mut repr: U8Repr = [0u8; BINARY_LEN_IN_U8];
    for (i, b) in repr.iter_mut().enumerate() {
        *b = i as u8;
    }
    let words: Vec<u8> = BinaryRepresentation::iter(&repr).copied().collect();
    assert_eq!(words.len(), 48);
    assert_eq!(words, (0..48u8).collect::<Vec<u8>>());
}

#[test]
fn u32_repr_iterates_in_order() {
    let mut repr: U32Repr = [0u32; BINARY_LEN_IN_U32];
    repr[0] = 7;
    repr[11] = 9;
    let words: Vec<u32> = BinaryRepresentation::iter(&repr).copied().collect();
    assert_eq!(words.len(), 12);
    assert_eq!(words[0], 7);
    assert_eq!(words[11], 9);
}
