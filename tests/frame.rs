use gif_clock::atlas::{initialization, to_codepoint, Atlas, GLYPH_COUNT};
use gif_clock::flags::HeaderPacked;
use gif_clock::frame::{compose, encode, FrameError, FRAME_IMAGES};
use gif_clock::gif::{Block, Extension};
use gif_clock::model::Context;

fn ctx(jst: &str) -> Context {
    Context { previous_timestamp: 0, timestamp: 1, connection_count: 0, jst: jst.to_string() }
}

fn image_count(blocks: &[Block]) -> usize {
    blocks.iter().filter(|b| matches!(b, Block::Image(_))).count()
}

#[test]
fn codepoints() {
    for (i, c) in b"0123456789".iter().enumerate() {
        assert_eq!(to_codepoint(*c), i);
    }
    assert_eq!(to_codepoint(b'-'), 10);
    assert_eq!(to_codepoint(b':'), 11);
    assert_eq!(to_codepoint(b' '), 12);
    assert_eq!(to_codepoint(b'x'), 12);
    assert_eq!(to_codepoint(0xC3), 12);
}

#[test]
fn glyph_bitmaps() {
    let atlas = initialization();
    let zero = atlas.glyph_pixels(0);
    assert_eq!(zero.len(), 60);
    assert_eq!(&zero[0..6], &[0, 1, 1, 1, 1, 0]);
    assert_eq!(&zero[12..18], &[1, 1, 0, 0, 1, 1]);
    let colon = atlas.glyph_pixels(11);
    assert_eq!(&colon[12..18], &[0, 0, 1, 1, 0, 0]);
    assert_eq!(colon.iter().filter(|p| **p == 1).count(), 8);
    assert_eq!(atlas.glyph_pixels(12), vec![0u8; 60]);
    for code in 0..GLYPH_COUNT {
        assert!(atlas.glyph_pixels(code).iter().all(|p| *p <= 1));
        assert_eq!(atlas.glyph_data(code), gif_clock::compress::do_lzw(&atlas.glyph_pixels(code)));
    }
    assert_eq!(atlas.background_data(), gif_clock::compress::do_lzw(&[0u8; 88 * 31]));
}

#[test]
fn scenario_glyph_codes_and_positions() {
    let atlas = initialization();
    let ts = "2024-01-02 03:04:05";
    let blocks = compose(ts.as_bytes(), &atlas);
    assert_eq!(blocks.len(), 38);
    // Glyph at each character; byte 10 (the space) is not drawn.
    let codes: [usize; 19] = [2, 0, 2, 4, 10, 0, 1, 10, 0, 2, 12, 0, 3, 11, 0, 4, 11, 0, 5];
    let mut expected: Vec<(u16, u16, usize)> = vec![];
    for k in 0..8u16 {
        expected.push((65 - 7 * k, 16, codes[18 - k as usize]));
    }
    for k in 0..10u16 {
        expected.push((9 + 7 * k, 4, codes[k as usize]));
    }
    for (j, pair) in blocks.chunks(2).enumerate() {
        match &pair[0] {
            Block::Extension(Extension::GraphicsControlExtension(g)) => {
                assert_eq!(g.delay_time, 2);
                assert_eq!(g.transpalent_color_index, 0);
                assert_eq!(g.packed.into_bits(), 0);
            }
            _ => panic!("block {} is not a control extension", 2 * j),
        }
        let Block::Image(ip) = &pair[1] else { panic!("block {} is not an image", 2 * j + 1) };
        if j == 0 {
            assert_eq!((ip.position.left, ip.position.top), (0, 0));
            assert_eq!((ip.image.size.width, ip.image.size.height), (88, 31));
            assert_eq!(ip.image.lzw_binary, atlas.background_data());
        } else {
            let (left, top, code) = expected[j - 1];
            assert_eq!((ip.position.left, ip.position.top), (left, top), "slot {}", j - 1);
            assert_eq!((ip.image.size.width, ip.image.size.height), (6, 10));
            assert_eq!(ip.image.lzw_binary, atlas.glyph_data(code), "slot {}", j - 1);
        }
        assert!(ip.image.local_color_table.is_empty());
    }
}

#[test]
fn every_frame_has_all_images() {
    let atlas = initialization();
    for ts in ["2024-01-02 03:04:05", "                   ", "xxxx?xx?xx!xx?xx?xx", "9999-12-31 23:59:59"] {
        let blocks = compose(ts.as_bytes(), &atlas);
        assert_eq!(image_count(&blocks), FRAME_IMAGES);
        assert_eq!(image_count(&blocks), 19);
        assert_eq!(blocks.len(), 2 * FRAME_IMAGES);
    }
}

#[test]
fn encode_is_deterministic() {
    let a = initialization();
    let b = initialization();
    let first = encode(&ctx("2024-01-02 03:04:05"), &a).unwrap();
    let second = encode(&ctx("2024-01-02 03:04:05"), &a).unwrap();
    let third = encode(&ctx("2024-01-02 03:04:05"), &b).unwrap();
    assert_eq!(first, second);
    assert_eq!(first, third);
    let other = encode(&ctx("2024-01-02 03:04:06"), &a).unwrap();
    assert_ne!(first, other);
}

#[test]
fn encode_writes_the_composed_blocks() {
    let atlas = initialization();
    let bytes = encode(&ctx("2024-01-02 03:04:05"), &atlas).unwrap();
    let blocks = compose(b"2024-01-02 03:04:05", &atlas);
    assert_eq!(bytes, gif_clock::gif::encode_blocks(&blocks).unwrap());
    assert_eq!(&bytes[0..8], &[0x21, 0xF9, 0x04, 0x00, 0x02, 0x00, 0x00, 0x00]);
    assert_eq!(&bytes[8..19], &[0x2C, 0, 0, 0, 0, 88, 0, 31, 0, 0x00, 0x08]);
    // The stream's opening bytes end with the same empty-banner pair that
    // starts every frame.
    assert!(bytes.starts_with(&atlas.header()[19..]));
    assert_eq!(*bytes.last().unwrap(), 0x00);
}

#[test]
fn wrong_length_timestamp_is_refused() {
    let atlas = initialization();
    assert_eq!(encode(&ctx("2024-1-2"), &atlas), Err(FrameError::MalformedTimestamp));
    assert_eq!(encode(&ctx(""), &atlas), Err(FrameError::MalformedTimestamp));
    assert_eq!(encode(&ctx("2024-01-02 03:04:05Z"), &atlas), Err(FrameError::MalformedTimestamp));
    assert_eq!(encode(&ctx("2024-01-02 03:04:0é"), &atlas), Err(FrameError::MalformedTimestamp));
}

#[test]
fn non_ascii_bytes_are_drawn_blank() {
    let atlas = initialization();
    let ts = "2024-01-02 03:04:é";
    assert_eq!(ts.len(), 19);
    let bytes = encode(&ctx(ts), &atlas).unwrap();
    let blocks = compose(ts.as_bytes(), &atlas);
    assert_eq!(image_count(&blocks), FRAME_IMAGES);
    assert_eq!(bytes, gif_clock::gif::encode_blocks(&blocks).unwrap());
    assert_eq!(bytes, encode(&ctx("2024-01-02 03:04: x"), &atlas).unwrap());
    // Blocks 3 and 5 draw bytes 18 and 17, the two bytes of `é`.
    for i in [3, 5] {
        let Block::Image(ip) = &blocks[i] else { panic!("block {i} is not an image") };
        assert_eq!(ip.image.lzw_binary, atlas.glyph_data(12));
    }
}

#[test]
fn header_for_two_color_palette() {
    let atlas: Atlas = initialization();
    let header = atlas.header();
    assert_eq!(&header[0..6], b"GIF89a");
    assert_eq!(&header[6..10], &[88, 0, 31, 0]);
    let flags = HeaderPacked::from_bits(header[10]);
    assert!(flags.global_color_table_flag());
    assert_eq!(flags.size_of_global_color_table(), 0);
    assert_eq!(flags.color_resolution(), 7);
    assert_eq!(header[10], 0xF0);
    assert_eq!(&header[11..19], &[0, 0, 0, 0, 0, 255, 255, 255]);
    assert_eq!(&header[19..27], &[0x21, 0xF9, 0x04, 0x00, 0x02, 0x00, 0x00, 0x00]);
    assert_eq!(&header[27..38], &[0x2C, 0, 0, 0, 0, 88, 0, 31, 0, 0x00, 0x08]);
    let bg = atlas.background_data();
    let mut framed = Vec::new();
    gif_clock::chunk::chunked_binary_writer(&mut framed, &bg);
    assert_eq!(&header[38..], &framed[..]);
}
