use blake3_stream::{create, extract, hash_into, hash_oneshot, read_hash_into};

fn pattern(len: usize) -> Vec<u8> {
    let mut bytes = Vec::with_capacity(len);
    for i in 0..len {
        bytes.push((i % 251) as u8);
    }
    bytes
}

#[test]
fn hash_into_gives_the_known_hash() {
    let mut output = [0u8; 32];
    hash_into(b"abc", &mut output, 0);
    assert_eq!(
        output.to_vec(),
        vec![
            0x64, 0x37, 0xb3, 0xac, 0x38, 0x46, 0x51, 0x33, 0xff, 0xb6, 0x3b, 0x75, 0x27, 0x3a,
            0x8d, 0xb5, 0x48, 0xc5, 0x58, 0x46, 0x5d, 0x79, 0xdb, 0x03, 0xfd, 0x35, 0x9c, 0x6c,
            0xd5, 0xbd, 0x9d, 0x85,
        ]
    );
}

#[test]
fn hash_into_equals_create_write_read() {
    for len in [0usize, 1, 64, 1023, 1024, 1025, 9000] {
        let input = pattern(len);
        let mut stream = create();
        blake3_stream::write(&mut stream, &input);
        for (size, offset) in [(32usize, 0usize), (50, 18), (300, 1), (8, 8)] {
            let mut from_stream = vec![0xC3u8; size];
            read_hash_into(&mut stream, &mut from_stream, offset);
            let mut at_once = vec![0xC3u8; size];
            hash_into(&input, &mut at_once, offset);
            assert_eq!(at_once, from_stream);
        }
    }
}

#[test]
fn hash_into_leaves_bytes_before_the_offset() {
    let mut output = [0x11u8; 20];
    hash_into(b"abc", &mut output, 12);
    assert_eq!(output[..12], [0x11u8; 12]);
    assert_eq!(output[12..], [0x64, 0x37, 0xb3, 0xac, 0x38, 0x46, 0x51, 0x33]);
}

#[test]
fn hash_into_at_the_end_of_the_buffer_writes_nothing() {
    let mut output = [9u8; 5];
    hash_into(b"abc", &mut output, 5);
    assert_eq!(output, [9u8; 5]);
}

#[test]
fn hash_into_matches_the_hash_function() {
    let input = pattern(70000);
    let mut output = [0u8; 32];
    hash_into(&input, &mut output, 0);
    assert_eq!(output, *blake3::hash(&input).as_bytes());
}

#[test]
fn hash_oneshot_equals_create_write_extract() {
    for len in [0usize, 3, 1024, 4097] {
        let input = pattern(len);
        let mut stream = create();
        blake3_stream::write(&mut stream, &input);
        for output_length in [0usize, 1, 32, 64, 65, 500] {
            assert_eq!(
                hash_oneshot(&input, output_length),
                extract(&stream, output_length)
            );
        }
    }
}

#[test]
fn hash_oneshot_has_the_requested_length() {
    assert_eq!(hash_oneshot(b"abc", 0), Vec::<u8>::new());
    assert_eq!(hash_oneshot(b"abc", 4), vec![0x64, 0x37, 0xb3, 0xac]);
    assert_eq!(hash_oneshot(b"abc", 1000).len(), 1000);
}

#[test]
fn hash_oneshot_of_the_empty_message() {
    assert_eq!(
        hash_oneshot(b"", 8),
        vec![0xaf, 0x13, 0x49, 0xb9, 0xf5, 0xf9, 0xa1, 0xa6]
    );
}
