use palsavetool_rs::CompressMode;
use palsavetool_rs::PalSave;
use palsavetool_rs::PalSaveError;
use std::io::Read;
use std::io::Write;

/// One zlib compression pass at the default level, made directly with
/// flate2, to cross-check what the library stores.
fn zlib_once(data: &[u8]) -> Vec<u8> {
    let mut encoder =
        flate2::write::ZlibEncoder::new(Vec::new(), flate2::Compression::default());
    encoder.write_all(data).unwrap();
    encoder.finish().unwrap()
}

/// One zlib decompression pass, made directly with flate2.
fn unzlib_once(data: &[u8]) -> Vec<u8> {
    let mut decoder = flate2::read::ZlibDecoder::new(data);
    let mut out = Vec::new();
    decoder.read_to_end(&mut out).unwrap();
    out
}

/// A raw container buffer assembled by hand.
fn raw_container(dlen: u32, clen: u32, magic: [u8; 3], mode: u8, body: &[u8]) -> Vec<u8> {
    let mut out = Vec::new();
    out.extend_from_slice(&dlen.to_le_bytes());
    out.extend_from_slice(&clen.to_le_bytes());
    out.extend_from_slice(&magic);
    out.push(mode);
    out.extend_from_slice(body);
    out
}

#[test]
fn round_trip_single_mode() {
    let payload: Vec<u8> = b"a payload of moderate size, with some repetition repetition".to_vec();
    let save = PalSave::from_decompressed_bytes(&payload, CompressMode::Single).unwrap();
    assert_eq!(save.decompressed_len(), payload.len() as u32);
    assert_eq!(save.compress_mode(), CompressMode::Single);
    assert_eq!(save.get_decompressed_body().unwrap(), payload);
}

#[test]
fn round_trip_double_mode() {
    let payload: Vec<u8> = (0..=255u8).cycle().take(4096).collect();
    let save = PalSave::from_decompressed_bytes(&payload, CompressMode::Double).unwrap();
    assert_eq!(save.decompressed_len(), payload.len() as u32);
    assert_eq!(save.compress_mode(), CompressMode::Double);
    assert_eq!(save.get_decompressed_body().unwrap(), payload);
}

#[test]
fn round_trip_through_bytes() {
    let payload: Vec<u8> = b"written out and read back".to_vec();
    let save = PalSave::from_decompressed_bytes(&payload, CompressMode::Double).unwrap();
    let encoded = save.to_bytes();
    let reread = PalSave::from_bytes(&encoded).unwrap();
    assert_eq!(reread.get_decompressed_body().unwrap(), payload);
}

#[test]
fn encode_decode_inverse() {
    let payload: Vec<u8> = b"field-for-field equality".to_vec();
    for mode in [CompressMode::Single, CompressMode::Double] {
        let save = PalSave::from_decompressed_bytes(&payload, mode).unwrap();
        let encoded = save.to_bytes();
        assert_eq!(encoded.len(), 12 + save.body().len());
        let reread = PalSave::from_bytes(&encoded).unwrap();
        assert_eq!(reread.decompressed_len(), save.decompressed_len());
        assert_eq!(reread.compressed_len(), save.compressed_len());
        assert_eq!(reread.compress_mode(), save.compress_mode());
        assert_eq!(reread.body(), save.body());
    }
}

#[test]
fn bad_magic_rejected() {
    let body = zlib_once(b"x");
    let data = raw_container(1, body.len() as u32, *b"XlZ", b'1', &body);
    assert!(matches!(PalSave::from_bytes(&data), Err(PalSaveError::BadMagic)));
    // The magic check comes first, whatever the rest of the header holds.
    let data = raw_container(77, 99, *b"Plz", b'7', &[1, 2, 3]);
    assert!(matches!(PalSave::from_bytes(&data), Err(PalSaveError::BadMagic)));
}

#[test]
fn unsupported_mode_rejected() {
    for mode in [b'0', b'3', b' ', 0u8, 255u8] {
        let data = raw_container(0, 0, *b"PlZ", mode, &[]);
        assert!(matches!(PalSave::from_bytes(&data), Err(PalSaveError::UnsupportedMode)));
    }
}

#[test]
fn short_input_rejected() {
    let empty: Vec<u8> = Vec::new();
    assert!(matches!(PalSave::from_bytes(&empty), Err(PalSaveError::TooShort)));
    let eleven = [0u8; 11];
    assert!(matches!(PalSave::from_bytes(&eleven), Err(PalSaveError::TooShort)));
    // Twelve bytes are enough for the header itself.
    let data = raw_container(0, 0, *b"PlZ", b'2', &[]);
    assert!(PalSave::from_bytes(&data).is_ok());
}

#[test]
fn single_mode_length_mismatch_rejected_at_decode() {
    let body = zlib_once(b"abcdef");
    let data = raw_container(6, body.len() as u32 + 1, *b"PlZ", b'1', &body);
    assert!(matches!(PalSave::from_bytes(&data), Err(PalSaveError::LengthMismatch)));
    // Double mode defers every length check to decompression time.
    let data = raw_container(6, 12345, *b"PlZ", b'2', &body);
    assert!(PalSave::from_bytes(&data).is_ok());
}

#[test]
fn update_is_idempotent() {
    let payload: Vec<u8> = b"the same payload twice over".to_vec();
    let mut save = PalSave::from_decompressed_bytes(&payload, CompressMode::Double).unwrap();
    save.update(&payload).unwrap();
    let first_body = save.body().clone();
    let first_dlen = save.decompressed_len();
    let first_clen = save.compressed_len();
    save.update(&payload).unwrap();
    assert_eq!(save.body(), &first_body);
    assert_eq!(save.decompressed_len(), first_dlen);
    assert_eq!(save.compressed_len(), first_clen);
}

#[test]
fn thousand_zero_bytes_double_mode() {
    let payload = vec![0u8; 1000];
    let save = PalSave::from_decompressed_bytes(&payload, CompressMode::Double).unwrap();
    assert_eq!(save.decompressed_len(), 1000);
    assert_eq!(save.compressed_len(), zlib_once(&payload).len() as u32);
    let encoded = save.to_bytes();
    let reread = PalSave::from_bytes(&encoded).unwrap();
    assert_eq!(reread.get_decompressed_body().unwrap(), vec![0u8; 1000]);
}

#[test]
fn empty_payload_single_mode() {
    let payload: Vec<u8> = Vec::new();
    let save = PalSave::from_decompressed_bytes(&payload, CompressMode::Single).unwrap();
    assert_eq!(save.decompressed_len(), 0);
    assert_eq!(save.get_decompressed_body().unwrap(), payload);
}

#[test]
fn stored_body_matches_flate2() {
    // A single-mode body is exactly one flate2 pass over the payload, and a
    // double-mode body is a pass over that pass.
    let payload: Vec<u8> = b"compare against flate2 directly".to_vec();
    let once = zlib_once(&payload);
    let single = PalSave::from_decompressed_bytes(&payload, CompressMode::Single).unwrap();
    assert_eq!(single.body(), &once);
    assert_eq!(single.compressed_len(), once.len() as u32);
    let double = PalSave::from_decompressed_bytes(&payload, CompressMode::Double).unwrap();
    assert_eq!(double.body(), &zlib_once(&once));
    assert_eq!(double.compressed_len(), once.len() as u32);
}

#[test]
fn foreign_compressed_stream_decodes() {
    // A container assembled outside the library, with flate2 doing the
    // compression, decodes and decompresses through the library.
    let payload: Vec<u8> = b"assembled by hand".to_vec();
    let stage1 = zlib_once(&payload);
    let body = zlib_once(&stage1);
    let data = raw_container(payload.len() as u32, stage1.len() as u32, *b"PlZ", b'2', &body);
    let save = PalSave::from_bytes(&data).unwrap();
    assert_eq!(save.get_decompressed_body().unwrap(), payload);
    // And the library's own stored stream is readable by flate2 alone.
    assert_eq!(unzlib_once(&unzlib_once(save.body())), payload);
}

#[test]
fn malformed_stream_is_a_compression_error() {
    let data = raw_container(10, 10, *b"PlZ", b'2', &[0xde, 0xad, 0xbe, 0xef]);
    let save = PalSave::from_bytes(&data).unwrap();
    assert_eq!(save.get_decompressed_body(), Err(PalSaveError::CompressionError));
}

#[test]
fn wrong_intermediate_length_is_a_mismatch() {
    let payload: Vec<u8> = b"intermediate length lies".to_vec();
    let stage1 = zlib_once(&payload);
    let body = zlib_once(&stage1);
    let data =
        raw_container(payload.len() as u32, stage1.len() as u32 + 1, *b"PlZ", b'2', &body);
    let save = PalSave::from_bytes(&data).unwrap();
    assert_eq!(save.get_decompressed_body(), Err(PalSaveError::LengthMismatch));
}

#[test]
fn wrong_final_length_is_a_mismatch() {
    let payload: Vec<u8> = b"final length lies".to_vec();
    let body = zlib_once(&payload);
    let data = raw_container(payload.len() as u32 + 1, body.len() as u32, *b"PlZ", b'1', &body);
    let save = PalSave::from_bytes(&data).unwrap();
    assert_eq!(save.get_decompressed_body(), Err(PalSaveError::LengthMismatch));
}

#[test]
fn mode_bytes_round_trip() {
    assert_eq!(CompressMode::Single.byte(), b'1');
    assert_eq!(CompressMode::Double.byte(), b'2');
    assert_eq!(CompressMode::from_byte(b'1'), Some(CompressMode::Single));
    assert_eq!(CompressMode::from_byte(b'2'), Some(CompressMode::Double));
    assert_eq!(CompressMode::from_byte(b'3'), None);
}
