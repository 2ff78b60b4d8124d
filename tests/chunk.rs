use gif_clock::chunk::{chunked_binary_parser, chunked_binary_writer, ChunkError};

fn frame(data: &[u8]) -> Vec<u8> {
    let mut out = Vec::new();
    chunked_binary_writer(&mut out, data);
    out
}

#[test]
fn empty_input_is_one_terminator() {
    assert_eq!(frame(&[]), vec![0u8]);
}

#[test]
fn short_input_is_one_chunk() {
    assert_eq!(frame(&[7, 8, 9]), vec![3, 7, 8, 9, 0]);
}

#[test]
fn framed_length_and_round_trip() {
    for n in [0usize, 1, 2, 254, 255, 256, 509, 510, 511, 1000, 2728] {
        let data: Vec<u8> = (0..n).map(|i| (i * 31 % 256) as u8).collect();
        let framed = frame(&data);
        assert_eq!(framed.len(), n + (n + 254) / 255 + 1, "n {n}");
        assert_eq!(*framed.last().unwrap(), 0);
        let (back, used) = chunked_binary_parser(&framed).unwrap();
        assert_eq!(back, data);
        assert_eq!(used, framed.len());
    }
}

#[test]
fn full_chunks_come_first() {
    let data = vec![1u8; 300];
    let framed = frame(&data);
    assert_eq!(framed[0], 255);
    assert_eq!(framed[256], 45);
    assert_eq!(framed[302], 0);
    assert_eq!(framed.len(), 303);
}

#[test]
fn writer_appends() {
    let mut out = vec![0xAA];
    chunked_binary_writer(&mut out, &[1, 2]);
    assert_eq!(out, vec![0xAA, 2, 1, 2, 0]);
}

#[test]
fn parser_stops_at_terminator() {
    let (data, used) = chunked_binary_parser(&[2, 5, 6, 1, 7, 0, 99, 98]).unwrap();
    assert_eq!(data, vec![5, 6, 7]);
    assert_eq!(used, 6);
}

#[test]
fn parser_reports_truncated_input() {
    assert_eq!(chunked_binary_parser(&[]), Err(ChunkError::UnexpectedEnd));
    assert_eq!(chunked_binary_parser(&[3, 1, 2]), Err(ChunkError::UnexpectedEnd));
    assert_eq!(chunked_binary_parser(&[1, 1]), Err(ChunkError::UnexpectedEnd));
}
