use pngme::chunk_type::ChunkType;

#[test]
pub fn test_chunk_type_from_bytes() {
    let expected = [82, 117, 83, 116];
    let actual = ChunkType::from_bytes([82, 117, 83, 116]).unwrap();

    assert_eq!(expected, actual.bytes());
}

#[test]
pub fn test_chunk_type_from_str() {
    let expected = ChunkType::from_bytes([82, 117, 83, 116]).unwrap();
    let actual = ChunkType::from_text("RuSt").unwrap();
    assert_eq!(expected, actual);
}

#[test]
pub fn test_chunk_type_is_critical() {
    let chunk = ChunkType::from_text("RuSt").unwrap();
    assert!(chunk.is_critical());
}

#[test]
pub fn test_chunk_type_is_not_critical() {
    let chunk = ChunkType::from_text("ruSt").unwrap();
    assert!(!chunk.is_critical());
}

#[test]
pub fn test_chunk_type_is_public() {
    let chunk = ChunkType::from_text("RUSt").unwrap();
    assert!(chunk.is_public());
}

#[test]
pub fn test_chunk_type_is_not_public() {
    let chunk = ChunkType::from_text("RuSt").unwrap();
    assert!(!chunk.is_public());
}

#[test]
pub fn test_chunk_type_is_reserved_bit_valid() {
    let chunk = ChunkType::from_text("RuSt").unwrap();
    assert!(chunk.is_reserved_bit_valid());
}

#[test]
pub fn test_chunk_type_is_reserved_bit_invalid() {
    let chunk = ChunkType::from_text("Rust").unwrap();
    assert!(!chunk.is_reserved_bit_valid());
}

#[test]
pub fn test_chunk_type_is_safe_to_copy() {
    let chunk = ChunkType::from_text("RuSt").unwrap();
    assert!(chunk.is_safe_to_copy());
}

#[test]
pub fn test_chunk_type_is_unsafe_to_copy() {
    let chunk = ChunkType::from_text("RuST").unwrap();
    assert!(!chunk.is_safe_to_copy());
}

#[test]
pub fn test_valid_chunk_is_valid() {
    let chunk = ChunkType::from_text("RuSt").unwrap();
    assert!(chunk.is_valid());
}

#[test]
pub fn test_invalid_chunk_is_valid() {
    let chunk = ChunkType::from_text("Rust").unwrap();
    assert!(!chunk.is_valid());

    let chunk = ChunkType::from_text("Ru1t");
    assert!(chunk.is_err());
    assert_eq!(chunk.err().unwrap().message(), "Invalid chunk payload");
}

#[test]
pub fn test_chunk_type_string() {
    let chunk = ChunkType::from_text("RuSt").unwrap();
    assert_eq!(&chunk.to_text(), "RuSt");
}

#[test]
pub fn test_chunk_type_trait_impls() {
    let chunk_type_1: ChunkType = ChunkType::from_bytes([82, 117, 83, 116]).unwrap();
    let chunk_type_2: ChunkType = ChunkType::from_text("RuSt").unwrap();
    let _chunk_string = chunk_type_1.to_text();
    let _are_chunks_equal = chunk_type_1 == chunk_type_2;
}

#[test]
pub fn test_chunk_type_iter() {
    let chunk = ChunkType::from_text("RuSt").unwrap();
    assert_eq!(chunk.iter(), vec![82, 117, 83, 116]);
}

#[test]
pub fn test_chunk_type_validity_tracks_reserved_bit_only() {
    // Byte 2 upper-case: valid, whatever the other bytes' case is.
    assert!(ChunkType::from_text("ruST").unwrap().is_valid());
    assert!(ChunkType::from_text("RUSt").unwrap().is_valid());
    // Byte 2 lower-case: invalid, whatever the other bytes' case is.
    assert!(!ChunkType::from_text("RUst").unwrap().is_valid());
    assert!(!ChunkType::from_text("rust").unwrap().is_valid());
}
