use digest::{Digest, DigestReader, Step, XorFold, BLOCK_SIZE};

/// Puts `bytes` at the start of the block of `reader`, as a read would, and
/// returns their number.
fn deliver(reader: &mut DigestReader<XorFold>, bytes: &[u8]) -> usize {
    reader.block()[..bytes.len()].copy_from_slice(bytes);
    bytes.len()
}

#[test]
fn block_size_is_one_kilobyte() {
    assert_eq!(BLOCK_SIZE, 1024);
    let mut reader = XorFold::digest_reader();
    assert_eq!(reader.block().len(), BLOCK_SIZE);
}

#[test]
fn two_chunks_and_the_end_give_the_digest_of_the_whole() {
    let mut reader = XorFold::digest_reader();
    let read = deliver(&mut reader, b"ab");
    assert_eq!(reader.advance::<()>(Ok(read)), Ok(Step::Read));
    let read = deliver(&mut reader, b"cd");
    assert_eq!(reader.advance::<()>(Ok(read)), Ok(Step::Read));
    assert_eq!(reader.advance::<()>(Ok(0)), Ok(Step::Finished(XorFold::digest(b"abcd"))));
}

#[test]
fn two_chunks_and_the_end_give_the_bytes() {
    let mut reader = XorFold::digest_reader();
    let read = deliver(&mut reader, b"ab");
    assert_eq!(reader.advance::<()>(Ok(read)), Ok(Step::Read));
    let read = deliver(&mut reader, b"cd");
    assert_eq!(reader.advance::<()>(Ok(read)), Ok(Step::Read));
    assert_eq!(
        reader.advance::<()>(Ok(0)),
        Ok(Step::Finished(vec![0x61u8, 0x62, 0x63, 0x64]))
    );
}

#[test]
fn failure_after_a_chunk_is_the_failure() {
    let mut reader = XorFold::digest_reader();
    let read = deliver(&mut reader, b"ab");
    assert_eq!(reader.advance::<String>(Ok(read)), Ok(Step::Read));
    assert_eq!(
        reader.advance(Err(String::from("the source broke"))),
        Err(String::from("the source broke"))
    );
}

#[test]
fn failure_at_once_is_the_failure() {
    let mut reader = XorFold::digest_reader();
    assert_eq!(reader.advance(Err(7u32)), Err(7u32));
}

#[test]
fn failure_leaves_the_reader_as_it_was() {
    let mut reader = XorFold::digest_reader();
    let read = deliver(&mut reader, b"ab");
    assert_eq!(reader.advance::<u32>(Ok(read)), Ok(Step::Read));
    assert_eq!(reader.advance(Err(7u32)), Err(7u32));
    assert_eq!(reader.advance::<u32>(Ok(0)), Ok(Step::Finished(XorFold::digest(b"ab"))));
}

#[test]
fn empty_source_gives_the_digest_of_nothing() {
    let mut reader = XorFold::digest_reader();
    assert_eq!(reader.advance::<()>(Ok(0)), Ok(Step::Finished(XorFold::digest(b""))));
}

#[test]
fn only_the_bytes_read_are_fed() {
    let mut reader = XorFold::digest_reader();
    deliver(&mut reader, b"abcdefgh");
    assert_eq!(reader.advance::<()>(Ok(3)), Ok(Step::Read));
    assert_eq!(reader.advance::<()>(Ok(0)), Ok(Step::Finished(XorFold::digest(b"abc"))));
}

#[test]
fn what_an_earlier_read_left_in_the_block_is_not_fed_again() {
    let mut reader = XorFold::digest_reader();
    let read = deliver(&mut reader, b"abcdefgh");
    assert_eq!(reader.advance::<()>(Ok(read)), Ok(Step::Read));
    let read = deliver(&mut reader, b"xy");
    assert_eq!(reader.advance::<()>(Ok(read)), Ok(Step::Read));
    assert_eq!(
        reader.advance::<()>(Ok(0)),
        Ok(Step::Finished(XorFold::digest(b"abcdefghxy")))
    );
}

#[test]
fn full_blocks_are_fed_whole() {
    let data: Vec<u8> = (0..2500u32).map(|i| (i % 251) as u8).collect();
    let mut reader = XorFold::digest_reader();
    for chunk in data.chunks(BLOCK_SIZE) {
        let read = deliver(&mut reader, chunk);
        assert_eq!(reader.advance::<()>(Ok(read)), Ok(Step::Read));
    }
    assert_eq!(reader.advance::<()>(Ok(0)), Ok(Step::Finished(XorFold::digest(&data))));
}

#[test]
fn reader_starts_over_after_the_end() {
    let mut reader = XorFold::digest_reader();
    let read = deliver(&mut reader, b"abc");
    assert_eq!(reader.advance::<()>(Ok(read)), Ok(Step::Read));
    assert_eq!(reader.advance::<()>(Ok(0)), Ok(Step::Finished(XorFold::digest(b"abc"))));
    let read = deliver(&mut reader, b"xy");
    assert_eq!(reader.advance::<()>(Ok(read)), Ok(Step::Read));
    assert_eq!(reader.advance::<()>(Ok(0)), Ok(Step::Finished(XorFold::digest(b"xy"))));
}

#[test]
fn reader_on_a_fed_hasher_counts_what_it_absorbed() {
    let mut hasher = XorFold::new();
    hasher.input(b"ab");
    let mut reader = DigestReader::new(hasher);
    let read = deliver(&mut reader, b"cd");
    assert_eq!(reader.advance::<()>(Ok(read)), Ok(Step::Read));
    assert_eq!(reader.advance::<()>(Ok(0)), Ok(Step::Finished(XorFold::digest(b"abcd"))));
}

#[test]
fn finished_output_has_output_size_bytes() {
    let mut reader = XorFold::digest_reader();
    let read = deliver(&mut reader, b"abcde");
    assert_eq!(reader.advance::<()>(Ok(read)), Ok(Step::Read));
    match reader.advance::<()>(Ok(0)) {
        Ok(Step::Finished(out)) => assert_eq!(out.len(), XorFold::output_size()),
        other => panic!("the source ended, but the reader said {:?}", other),
    }
}

/// A source that hands out its items one per read: a chunk, or a failure.
struct Chunks {
    items: std::collections::VecDeque<Result<Vec<u8>, std::io::ErrorKind>>,
    reads: usize,
}

impl Chunks {
    fn of(items: Vec<Result<Vec<u8>, std::io::ErrorKind>>) -> Chunks {
        Chunks { items: items.into_iter().collect(), reads: 0 }
    }
}

impl std::io::Read for Chunks {
    fn read(&mut self, buf: &mut [u8]) -> std::io::Result<usize> {
        self.reads += 1;
        match self.items.pop_front() {
            None => Ok(0),
            Some(Ok(chunk)) => {
                buf[..chunk.len()].copy_from_slice(&chunk);
                Ok(chunk.len())
            }
            Some(Err(kind)) => Err(std::io::Error::from(kind)),
        }
    }
}

/// Reads `source` to its end, or to its first failure, through a reader.
fn drain(source: &mut dyn std::io::Read) -> std::io::Result<Vec<u8>> {
    let mut reader = XorFold::digest_reader();
    loop {
        let read = source.read(reader.block());
        if let Ok(bytes_read) = read {
            assert!(bytes_read <= BLOCK_SIZE);
        }
        match reader.advance(read)? {
            Step::Read => {}
            Step::Finished(out) => return Ok(out),
        }
    }
}

#[test]
fn source_of_two_chunks_gives_the_digest_of_the_whole() {
    let mut source = Chunks::of(vec![Ok(b"ab".to_vec()), Ok(b"cd".to_vec())]);
    assert_eq!(drain(&mut source).unwrap(), XorFold::digest(b"abcd"));
    assert_eq!(source.reads, 3);
}

#[test]
fn source_that_fails_after_a_chunk_gives_the_failure() {
    let mut source = Chunks::of(vec![
        Ok(b"ab".to_vec()),
        Err(std::io::ErrorKind::ConnectionReset),
        Ok(b"cd".to_vec()),
    ]);
    let failure = drain(&mut source).unwrap_err();
    assert_eq!(failure.kind(), std::io::ErrorKind::ConnectionReset);
    assert_eq!(source.reads, 2);
}

#[test]
fn source_that_ends_at_once_gives_the_digest_of_nothing() {
    let mut source = Chunks::of(vec![]);
    assert_eq!(drain(&mut source).unwrap(), vec![0u8, 0, 0, 0]);
    assert_eq!(source.reads, 1);
}

#[test]
fn source_with_an_empty_chunk_ends_there() {
    let mut source = Chunks::of(vec![Ok(b"ab".to_vec()), Ok(Vec::new()), Ok(b"cd".to_vec())]);
    assert_eq!(drain(&mut source).unwrap(), XorFold::digest(b"ab"));
    assert_eq!(source.reads, 2);
}

#[test]
fn slice_longer_than_a_block_is_read_in_blocks() {
    let data: Vec<u8> = (0..3000u32).map(|i| (i % 253) as u8).collect();
    let mut source = &data[..];
    assert_eq!(drain(&mut source).unwrap(), XorFold::digest(&data));
}
