use file_uploader::compress::{compress_beside, compress_into_storage, StorageError};
use file_uploader::gzip::gzip_compress;
use file_uploader::menu::CompressionChoice;
use std::io::{Read, Write};

fn gunzip(bytes: &[u8]) -> Vec<u8> {
    let mut out = Vec::new();
    flate2::read::GzDecoder::new(bytes).read_to_end(&mut out).unwrap();
    out
}

fn trailer_size(bytes: &[u8]) -> u32 {
    let n = bytes.len();
    u32::from_le_bytes([bytes[n - 4], bytes[n - 3], bytes[n - 2], bytes[n - 1]])
}

#[test]
fn gzip_round_trip() {
    let data = b"Hello World".to_vec();
    for level in [0u32, 1, 6, 9, 10] {
        let out = gzip_compress(&data, level).ok().unwrap();
        assert_ne!(out, data);
        assert_eq!(gunzip(&out), data);
    }
}

#[test]
fn gzip_empty_contents() {
    let out = gzip_compress(&[], 6).ok().unwrap();
    assert!(out.len() >= 18);
    assert_eq!(gunzip(&out), Vec::<u8>::new());
    assert_eq!(trailer_size(&out), 0);
}

#[test]
fn gzip_header_bytes() {
    let data = vec![7u8; 1000];
    let six = gzip_compress(&data, 6).ok().unwrap();
    assert_eq!(&six[..10], &[0x1f, 0x8b, 8, 0, 0, 0, 0, 0, 0, 255]);
    let nine = gzip_compress(&data, 9).ok().unwrap();
    assert_eq!(nine[8], 2);
    let one = gzip_compress(&data, 1).ok().unwrap();
    assert_eq!(one[8], 4);
}

#[test]
fn gzip_trailer_records_size() {
    let data: Vec<u8> = (0..70000u32).map(|i| (i % 251) as u8).collect();
    let out = gzip_compress(&data, 9).ok().unwrap();
    assert_eq!(trailer_size(&out), 70000);
    assert!(out.len() < data.len());
}

#[test]
fn gzip_matches_flate2_encoder() {
    let data = b"the same contents compressed twice".repeat(50);
    let mut e = flate2::write::GzEncoder::new(Vec::new(), flate2::Compression::best());
    e.write_all(&data).unwrap();
    let expected = e.finish().unwrap();
    assert_eq!(gzip_compress(&data, 9).ok().unwrap(), expected);
}

#[test]
fn storage_copy() {
    let data = b"some file contents".to_vec();
    let copy = compress_into_storage("dir/notes.txt", &data, CompressionChoice::Best).ok().unwrap();
    assert_eq!(copy.path, "files/notes.txt.gz");
    assert_eq!(gunzip(&copy.contents), data);
    assert_eq!(copy.contents[8], 2);
}

#[test]
fn storage_copy_without_file_name() {
    let r = compress_into_storage("dir/..", b"x", CompressionChoice::Default);
    assert!(matches!(r, Err(StorageError::NoFileName)));
}

#[test]
fn copy_beside_file() {
    let data = b"beside".to_vec();
    let copy = compress_beside("files/a.txt", &data, CompressionChoice::Fastest).ok().unwrap();
    assert_eq!(copy.path, "files/a.txt.gz");
    assert_eq!(gunzip(&copy.contents), data);
    assert_eq!(copy.contents[8], 4);
}
