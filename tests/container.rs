use tangent_proj::texture::{parse_header, read_u32_le, AssetError, Header, TextureLayout};

fn container(offset: u32, width: u32, height: u32, pixel_bytes: usize) -> Vec<u8> {
    let mut bytes = vec![0u8; offset as usize + pixel_bytes];
    let len = bytes.len() as u32;
    bytes[0] = b'B';
    bytes[1] = b'M';
    bytes[2..6].copy_from_slice(&len.to_le_bytes());
    bytes[10..14].copy_from_slice(&offset.to_le_bytes());
    bytes[18..22].copy_from_slice(&width.to_le_bytes());
    bytes[22..26].copy_from_slice(&height.to_le_bytes());
    bytes
}

#[test]
fn reads_little_endian() {
    let bytes = vec![0, 0x78, 0x56, 0x34, 0x12];
    assert_eq!(read_u32_le(&bytes, 1), 0x1234_5678);
}

#[test]
fn parses_a_valid_header() {
    let bytes = container(54, 4, 2, 24);
    let expected = Header {
        file_len: 78,
        layout: TextureLayout { data_offset: 54, width: 4, height: 2 },
    };
    assert_eq!(parse_header(&bytes), Ok(expected));
}

#[test]
fn short_container_is_truncated() {
    assert_eq!(parse_header(&vec![0u8; 25]), Err(AssetError::Truncated));
    assert_eq!(parse_header(&Vec::new()), Err(AssetError::Truncated));
}

#[test]
fn missing_pixels_are_rejected() {
    let mut bytes = container(54, 4, 2, 24);
    bytes.pop();
    assert_eq!(parse_header(&bytes), Err(AssetError::PixelsOutOfBounds));
    assert_eq!(parse_header(&container(54, 0, 2, 0)), Err(AssetError::PixelsOutOfBounds));
    assert_eq!(parse_header(&container(26, 1, 0, 3)), Err(AssetError::PixelsOutOfBounds));
}
