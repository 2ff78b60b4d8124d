use gif_clock::flags::{GraphicControlExtensionPacked, HeaderPacked, ImagePacked};
use gif_clock::gif::{
    encode_blocks, Block, Color, DecodeError, EncodeError, Extension, Gif, GraphicsControlExtension,
    Image, ImagePositioned, Position, Size, Version,
};

fn image(table: Vec<Color>, data: Vec<u8>) -> Block {
    Block::Image(ImagePositioned {
        position: Position::new(0x0102, 3),
        image: Image {
            size: Size::new(4, 0x0506),
            packed: ImagePacked::new(),
            local_color_table: table,
            lzw_binary: data,
        },
    })
}

fn gce(delay: u16) -> Block {
    Block::Extension(Extension::GraphicsControlExtension(GraphicsControlExtension {
        packed: GraphicControlExtensionPacked::new(),
        delay_time: delay,
        transpalent_color_index: 9,
    }))
}

#[test]
fn constructors_keep_fields() {
    let c = Color::from_rgb(1, 2, 3);
    assert_eq!((c.r, c.g, c.b), (1, 2, 3));
    let p = Position::new(7, 8);
    assert_eq!((p.left, p.top), (7, 8));
    let s = Size::new(88, 31);
    assert_eq!((s.width, s.height), (88, 31));
}

#[test]
fn block_layouts() {
    let bytes = encode_blocks(&[gce(0x0302), image(vec![], vec![0xAB, 0xCD]), Block::Trailer(())]).unwrap();
    assert_eq!(
        bytes,
        vec![
            0x21, 0xF9, 0x04, 0x00, 0x02, 0x03, 0x09, 0x00,
            0x2C, 0x02, 0x01, 0x03, 0x00, 0x04, 0x00, 0x06, 0x05, 0x00, 0x08, 0x02, 0xAB, 0xCD, 0x00,
            0x3B,
        ]
    );
}

#[test]
fn local_table_sets_image_flags() {
    let table = vec![Color::from_rgb(1, 2, 3), Color::from_rgb(4, 5, 6), Color::from_rgb(7, 8, 9), Color::from_rgb(10, 11, 12)];
    let bytes = encode_blocks(&[image(table, vec![])]).unwrap();
    assert_eq!(bytes[9], 0x81);
    assert_eq!(&bytes[10..22], &[1, 2, 3, 4, 5, 6, 7, 8, 9, 10, 11, 12]);
    assert_eq!(&bytes[22..], &[0x08, 0x00]);
}

#[test]
fn invalid_local_table_is_refused() {
    let table = vec![Color::from_rgb(0, 0, 0); 3];
    assert_eq!(encode_blocks(&[gce(1), image(table, vec![])]), Err(EncodeError::InvalidColorTable));
    let single = vec![Color::from_rgb(0, 0, 0)];
    assert_eq!(encode_blocks(&[image(single, vec![])]), Err(EncodeError::InvalidColorTable));
}

#[test]
fn whole_container() {
    let g = Gif {
        version: Version::GIF87a,
        screen_width: 2,
        screen_height: 1,
        packed: HeaderPacked::new().with_color_resolution(1),
        background_color_index: 1,
        pixel_aspect_ratio: 0,
        global_color_table: vec![Color::from_rgb(0, 0, 0), Color::from_rgb(255, 255, 255)],
        blocks: vec![image(vec![], vec![]), Block::Trailer(())],
    };
    let bytes = g.write().unwrap();
    let mut expected = b"GIF87a".to_vec();
    expected.extend_from_slice(&[2, 0, 1, 0, 0x90, 1, 0, 0, 0, 0, 255, 255, 255]);
    expected.extend_from_slice(&[0x2C, 0x02, 0x01, 0x03, 0x00, 0x04, 0x00, 0x06, 0x05, 0x00, 0x08, 0x00, 0x3B]);
    assert_eq!(bytes, expected);
}

#[test]
fn invalid_global_table_is_refused() {
    for len in [1usize, 3, 6, 100, 257, 512] {
        let g = Gif {
            version: Version::GIF89a,
            screen_width: 1,
            screen_height: 1,
            packed: HeaderPacked::new(),
            background_color_index: 0,
            pixel_aspect_ratio: 0,
            global_color_table: vec![Color::from_rgb(0, 0, 0); len],
            blocks: vec![],
        };
        assert_eq!(g.write(), Err(EncodeError::InvalidColorTable), "len {len}");
    }
}

#[test]
fn version_tags() {
    let mut out = Vec::new();
    Version::GIF87a.write_options(&mut out);
    Version::GIF89a.write_options(&mut out);
    assert_eq!(out, b"87a89a".to_vec());
    assert_eq!(Version::read_options(b"87a"), Ok(Version::GIF87a));
    assert_eq!(Version::read_options(b"89a..."), Ok(Version::GIF89a));
    assert_eq!(Version::read_options(b"88a"), Err(DecodeError::UnsupportedVersion));
    assert_eq!(Version::read_options(b"89"), Err(DecodeError::UnexpectedEnd));
}
