use std::collections::HashMap;
use std::io::Read;

use etl0::chunk::{TarArchive, TarChunk};
use etl0::error::{DockerError, TarError};
use etl0::header::{TarHeader, TarMetadata};
use etl0::state::{TarAction, TarEvent, TarStream};

struct MemoryFile {
    metadata: TarMetadata,
    contents: Vec<u8>,
}

fn file(mode: u32, mtime: i64, contents: Vec<u8>) -> MemoryFile {
    MemoryFile { metadata: TarMetadata { mode, size: contents.len() as u64, mtime }, contents }
}

/// Drives the stream over files held in memory, as an uploader drives it over disk files.
fn run(mut stream: TarStream, files: &HashMap<String, MemoryFile>) -> Vec<Result<TarChunk, TarError>> {
    let mut out = Vec::new();
    let mut event = TarEvent::Resume;
    let mut open: Option<(&MemoryFile, usize)> = None;
    for _ in 0..1_000_000 {
        match stream.poll_next(event) {
            TarAction::Open(path) => {
                let f = files.get(&path).expect("known file");
                open = Some((f, 0));
                event = TarEvent::Opened;
            }
            TarAction::Stat => {
                event = TarEvent::Metadata(open.as_ref().unwrap().0.metadata);
            }
            TarAction::Read(n) => {
                let (f, pos) = open.as_mut().unwrap();
                let end = std::cmp::min(*pos + n, f.contents.len());
                let bytes = f.contents[*pos..end].to_vec();
                *pos = end;
                event = TarEvent::Read(bytes);
            }
            TarAction::Emit(chunk) => {
                out.push(Ok(chunk));
                event = TarEvent::Resume;
            }
            TarAction::Fail(error) => {
                out.push(Err(error));
                event = TarEvent::Resume;
            }
            TarAction::End => return out,
        }
    }
    panic!("stream did not end");
}

fn bytes_of(chunks: Vec<Result<TarChunk, TarError>>) -> Vec<u8> {
    let mut all = Vec::new();
    for c in chunks {
        all.extend(c.expect("no error").into_bytes());
    }
    all
}

#[test]
fn empty_archive_is_two_zero_blocks() {
    let archive = TarArchive::new();
    let chunks = run(archive.into_stream(4096), &HashMap::new());
    assert_eq!(chunks.len(), 2);
    for (i, c) in chunks.into_iter().enumerate() {
        let c = c.unwrap();
        assert!(matches!(c, TarChunk::Padding(index) if index == i));
        assert_eq!(c.into_bytes(), vec![0u8; 512]);
    }
}

#[test]
fn single_small_file() {
    let mut files = HashMap::new();
    files.insert("abc.txt".to_string(), file(0o100644, 0, b"abc".to_vec()));
    let mut archive = TarArchive::new();
    archive.append_file("abc.txt".to_string());
    let chunks: Vec<TarChunk> = run(archive.into_stream(4096), &files).into_iter().map(|c| c.unwrap()).collect();
    assert_eq!(chunks.len(), 4);
    match &chunks[0] {
        TarChunk::Header(path, data) => {
            assert_eq!(path, "abc.txt");
            assert_eq!(data.len(), 512);
            assert_eq!(&data[0..7], b"abc.txt");
            assert!(data[7..100].iter().all(|b| *b == 0));
            assert_eq!(&data[100..108], b"0000644\0");
            assert_eq!(&data[108..116], b"0000000\0");
            assert_eq!(&data[116..124], b"0000000\0");
            assert_eq!(&data[124..136], b"00000000003\0");
            assert_eq!(&data[136..148], b"00000000000\0");
            assert_eq!(data[156], b'0');
            assert_eq!(&data[257..265], b"ustar  \0");
            let mut blanked = data.clone();
            blanked[148..156].copy_from_slice(b"        ");
            let sum: u32 = blanked.iter().map(|b| *b as u32).sum();
            assert_eq!(&data[148..156], format!("{:07o}\0", sum).as_bytes());
        }
        _ => panic!("header first"),
    }
    match &chunks[1] {
        TarChunk::Data(data) => {
            assert_eq!(data.len(), 512);
            assert_eq!(&data[0..3], b"abc");
            assert!(data[3..].iter().all(|b| *b == 0));
        }
        _ => panic!("data second"),
    }
    assert!(matches!(chunks[2], TarChunk::Padding(0)));
    assert!(matches!(chunks[3], TarChunk::Padding(1)));
}

#[test]
fn file_takes_header_and_padded_pages() {
    for size in [0usize, 1, 511, 512, 513, 4096, 4097, 10_000] {
        for buffer in [512usize, 1000, 4096] {
            let mut files = HashMap::new();
            files.insert("f".to_string(), file(0o644, 0, vec![7u8; size]));
            let mut archive = TarArchive::new();
            archive.append_file("f".to_string());
            let chunks = run(archive.into_stream(buffer), &files);
            let total = bytes_of(chunks).len();
            assert_eq!(total, 512 + (size + 511) / 512 * 512 + 1024, "size {size} buffer {buffer}");
        }
    }
}

#[test]
fn data_chunks_respect_the_buffer() {
    let mut files = HashMap::new();
    files.insert("f".to_string(), file(0o644, 0, vec![1u8; 10_000]));
    let mut archive = TarArchive::new();
    archive.append_file("f".to_string());
    let chunks = run(archive.into_stream(4096), &files);
    let sizes: Vec<usize> = chunks
        .iter()
        .filter_map(|c| match c {
            Ok(TarChunk::Data(d)) => Some(d.len()),
            _ => None,
        })
        .collect();
    assert_eq!(sizes, vec![4096, 4096, 2048]);
}

#[test]
fn round_trip_through_an_independent_reader() {
    let sizes = [0usize, 1, 511, 512, 513, 10_000];
    let mut files = HashMap::new();
    let mut archive = TarArchive::new();
    for (i, size) in sizes.iter().enumerate() {
        let name = format!("file_{i}_{size}.bin");
        let contents: Vec<u8> = (0..*size).map(|k| (k * 31 + i) as u8).collect();
        files.insert(name.clone(), file(0o100600 + i as u32, 1_700_000_000 + i as i64, contents));
        archive.append_file(name);
    }
    let all = bytes_of(run(archive.into_stream(4096), &files));
    assert_eq!(&all[all.len() - 1024..], &vec![0u8; 1024][..]);
    let mut reader = tar::Archive::new(&all[..]);
    let mut seen = 0;
    for entry in reader.entries().unwrap() {
        let mut entry = entry.unwrap();
        let name = entry.path().unwrap().to_string_lossy().to_string();
        let f = files.get(&name).expect("a written file");
        assert_eq!(entry.header().size().unwrap(), f.metadata.size);
        assert_eq!(entry.header().mode().unwrap(), f.metadata.mode & 0o777);
        assert_eq!(entry.header().mtime().unwrap(), f.metadata.mtime as u64);
        let mut contents = Vec::new();
        entry.read_to_end(&mut contents).unwrap();
        assert_eq!(contents, f.contents);
        seen += 1;
    }
    assert_eq!(seen, sizes.len());
}

#[test]
fn header_checksum_is_the_byte_sum() {
    let header = TarHeader::empty("some/dir/name.txt".to_string());
    let chunk = header.write(&TarMetadata { mode: 0o755, size: 123_456, mtime: 1_234_567_890 }).unwrap();
    let data = chunk.into_bytes();
    let mut blanked = data.clone();
    blanked[148..156].copy_from_slice(b"        ");
    let sum: u32 = blanked.iter().map(|b| *b as u32).sum();
    let field = std::str::from_utf8(&data[148..155]).unwrap();
    assert_eq!(u32::from_str_radix(field, 8).unwrap(), sum);
    assert_eq!(data[155], 0);
    assert_eq!(&data[124..136], b"00000361100\0");
    assert_eq!(&data[136..148], b"11145401322\0");
}

#[test]
fn long_names_are_cut_to_ninety_nine_bytes() {
    let name = "n".repeat(150);
    let data = TarHeader::empty(name).write(&TarMetadata { mode: 0o644, size: 0, mtime: 0 }).unwrap().into_bytes();
    assert!(data[0..99].iter().all(|b| *b == b'n'));
    assert_eq!(data[99], 0);
}

#[test]
fn open_failure_ends_the_stream_with_one_error() {
    let mut archive = TarArchive::new();
    archive.append_file("missing".to_string());
    let mut stream = archive.into_stream(4096);
    assert!(matches!(stream.poll_next(TarEvent::Resume), TarAction::Open(p) if p == "missing"));
    let failure = std::io::Error::new(std::io::ErrorKind::NotFound, "missing");
    match stream.poll_next(TarEvent::Failed(failure)) {
        TarAction::Fail(TarError::IOFailed(e)) => assert_eq!(e.kind(), std::io::ErrorKind::NotFound),
        _ => panic!("an I/O failure"),
    }
    assert!(matches!(stream.poll_next(TarEvent::Resume), TarAction::End));
    assert!(matches!(stream.poll_next(TarEvent::Resume), TarAction::End));
}

#[test]
fn oversized_read_is_a_memory_access_error() {
    let mut archive = TarArchive::new();
    archive.append_file("f".to_string());
    let mut stream = archive.into_stream(512);
    assert!(matches!(stream.poll_next(TarEvent::Resume), TarAction::Open(_)));
    assert!(matches!(stream.poll_next(TarEvent::Opened), TarAction::Stat));
    let meta = TarMetadata { mode: 0o644, size: 10, mtime: 0 };
    assert!(matches!(stream.poll_next(TarEvent::Metadata(meta)), TarAction::Emit(TarChunk::Header(_, _))));
    assert!(matches!(stream.poll_next(TarEvent::Resume), TarAction::Read(10)));
    assert!(matches!(stream.poll_next(TarEvent::Read(vec![0u8; 11])), TarAction::Fail(TarError::MemoryAccess(_))));
    assert!(matches!(stream.poll_next(TarEvent::Resume), TarAction::End));
}

#[test]
fn short_file_is_an_io_error() {
    let mut archive = TarArchive::new();
    archive.append_file("f".to_string());
    let mut stream = archive.into_stream(512);
    stream.poll_next(TarEvent::Resume);
    stream.poll_next(TarEvent::Opened);
    stream.poll_next(TarEvent::Metadata(TarMetadata { mode: 0o644, size: 10, mtime: 0 }));
    assert!(matches!(stream.poll_next(TarEvent::Read(vec![1u8; 4])), TarAction::Read(6)));
    match stream.poll_next(TarEvent::Read(Vec::new())) {
        TarAction::Fail(TarError::IOFailed(e)) => assert_eq!(e.kind(), std::io::ErrorKind::UnexpectedEof),
        _ => panic!("an I/O failure"),
    }
}

#[test]
fn padding_chunk_gives_no_offset() {
    let padding = TarChunk::padding(0);
    assert!(matches!(padding.offset(0), Err(TarError::MemoryAccess(_))));
    let data = TarChunk::data(2);
    assert_eq!(data.len(), 1024);
    assert_eq!(data.offset(1000).ok(), Some(24));
    assert!(matches!(data.offset(1025), Err(TarError::MemoryAccess(_))));
    let mut data = TarChunk::data(1);
    assert!(data.fill(510, b"xy").is_ok());
    assert!(matches!(data.fill(511, b"xy"), Err(TarError::MemoryAccess(_))));
    let bytes = data.into_bytes();
    assert_eq!(&bytes[510..512], b"xy");
}

#[test]
fn buffer_size_is_rounded_to_pages() {
    assert_eq!(TarStream::new(Vec::new(), 0).buffer_size, 512);
    assert_eq!(TarStream::new(Vec::new(), 1000).buffer_size, 512);
    assert_eq!(TarStream::new(Vec::new(), 4096).buffer_size, 4096);
    assert_eq!(TarStream::new(Vec::new(), 5000).buffer_size, 4608);
}

#[test]
fn archive_errors_map_to_engine_errors() {
    let e = DockerError::from_tar(TarError::memory_access("out of range"));
    assert!(matches!(e, DockerError::TarMemoryAccess(ref s) if s == "out of range"));
    let e = DockerError::from_tar(TarError::IOFailed(std::io::Error::new(std::io::ErrorKind::Other, "x")));
    assert!(matches!(e, DockerError::TarIOFailed(_)));
}
