use gif_clock::flags::{
    size_code_of_table, valid_table_len, DisposalMethod, GraphicControlExtensionPacked,
    HeaderPacked, HeaderPackedWriteArgs, ImagePacked, ImagePackedWriteArgs,
};
use gif_clock::gif::DecodeError;
use gif_clock::gif::{Color, Gif, Version};

fn gif_with_table(len: usize) -> Gif {
    let mut table = Vec::new();
    for i in 0..len {
        table.push(Color::from_rgb(i as u8, 0, 0));
    }
    Gif {
        version: Version::GIF89a,
        screen_width: 1,
        screen_height: 1,
        packed: HeaderPacked::new(),
        background_color_index: 0,
        pixel_aspect_ratio: 0,
        global_color_table: table,
        blocks: vec![],
    }
}

#[test]
fn header_flags_follow_every_allowed_table_length() {
    let expected = [(0usize, false, 0u32), (2, true, 0), (4, true, 1), (8, true, 2), (16, true, 3),
        (32, true, 4), (64, true, 5), (128, true, 6), (256, true, 7)];
    for (len, present, code) in expected {
        let bytes = gif_with_table(len).write().unwrap();
        let flags = HeaderPacked::from_bits(bytes[10]);
        assert_eq!(flags.global_color_table_flag(), present, "len {len}");
        assert_eq!(flags.size_of_global_color_table(), code, "len {len}");
        assert_eq!(bytes.len(), 13 + 3 * len);
    }
}

#[test]
fn size_code_is_log2_minus_one() {
    assert_eq!(size_code_of_table(0), 0);
    assert_eq!(size_code_of_table(2), 0);
    assert_eq!(size_code_of_table(4), 1);
    assert_eq!(size_code_of_table(32), 4);
    assert_eq!(size_code_of_table(256), 7);
}

#[test]
fn allowed_table_lengths() {
    for len in 0..600usize {
        let allowed = matches!(len, 0 | 2 | 4 | 8 | 16 | 32 | 64 | 128 | 256);
        assert_eq!(valid_table_len(len), allowed, "len {len}");
    }
}

#[test]
fn header_packed_fields_round_trip() {
    let p = HeaderPacked::new()
        .with_global_color_table_flag(true)
        .with_color_resolution(7)
        .with_sort_flag(true)
        .with_size_of_global_color_table(5);
    assert_eq!(p.into_bits(), 0b1111_1101);
    assert!(p.global_color_table_flag());
    assert_eq!(p.color_resolution(), 7);
    assert!(p.sort_flag());
    assert_eq!(p.size_of_global_color_table(), 5);
    let q = HeaderPacked::from_bits(0b0101_0010);
    assert!(!q.global_color_table_flag());
    assert_eq!(q.color_resolution(), 5);
    assert!(!q.sort_flag());
    assert_eq!(q.size_of_global_color_table(), 2);
    assert_eq!(q.with_sort_flag(true).into_bits(), 0b0101_1010);
    assert_eq!(p.with_global_color_table_flag(false).into_bits(), 0b0111_1101);
}

#[test]
fn header_packed_for_table_overrides_flag_and_size() {
    let p = HeaderPacked::new().with_color_resolution(7).with_size_of_global_color_table(6);
    assert_eq!(p.for_table(2).into_bits(), 0xF0);
    assert_eq!(p.for_table(0).into_bits(), 0x70);
    assert_eq!(p.for_table(256).into_bits(), 0xF7);
}

#[test]
fn image_packed_fields_round_trip() {
    let p = ImagePacked::new()
        .with_local_color_table_flag(true)
        .with_interlace_flag(true)
        .with_sort_flag(false)
        .with_reserved(2)
        .with_size_of_local_color_table(3);
    assert_eq!(p.into_bits(), 0b1101_0011);
    assert!(p.local_color_table_flag());
    assert!(p.interlace_flag());
    assert!(!p.sort_flag());
    assert_eq!(p.reserved(), 2);
    assert_eq!(p.size_of_local_color_table(), 3);
    assert_eq!(p.with_sort_flag(true).into_bits(), 0b1111_0011);
    assert_eq!(ImagePacked::new().for_table(8).into_bits(), 0b1000_0010);
}

#[test]
fn disposal_method_codes() {
    let all = [
        DisposalMethod::NoDisposalSpecified,
        DisposalMethod::DoNotDispose,
        DisposalMethod::RestoreToBackgroundColor,
        DisposalMethod::RestoreToPrevious,
    ];
    for (i, d) in all.iter().enumerate() {
        assert_eq!(d.into_bits(), i as u8);
        assert_eq!(DisposalMethod::from_bits(i as u8), *d);
    }
    for v in 4..=255u8 {
        assert_eq!(DisposalMethod::from_bits(v), DisposalMethod::NoDisposalSpecified);
    }
}

#[test]
fn graphic_control_flags_keep_reserved_bits_zero() {
    let p = GraphicControlExtensionPacked::new()
        .with_disposal_method(DisposalMethod::RestoreToPrevious)
        .with_user_input_flag(true)
        .with_transpalent_color_flag(true);
    assert_eq!(p.into_bits(), 0b000_011_1_1);
    assert_eq!(p.disposal_method(), DisposalMethod::RestoreToPrevious);
    assert!(p.user_input_flag());
    assert!(p.transpalent_color_flag());
    let r = GraphicControlExtensionPacked::from_bits(0xFF);
    assert_eq!(r.into_bits(), 0x03);
    assert_eq!(r.disposal_method(), DisposalMethod::NoDisposalSpecified);
    // Disposal code 5 has no meaning: it reads, and is written, as none.
    let undefined = GraphicControlExtensionPacked::from_bits(20);
    assert_eq!(undefined.disposal_method(), DisposalMethod::NoDisposalSpecified);
    assert!(!undefined.user_input_flag());
    assert!(!undefined.transpalent_color_flag());
    assert_eq!(undefined.into_bits(), 0x00);
    let mut out = vec![];
    undefined.write_options(&mut out);
    assert_eq!(out, vec![0x00]);
    assert_eq!(GraphicControlExtensionPacked::new().into_bits(), 0);
}

#[test]
fn packed_bytes_read_and_write() {
    assert_eq!(HeaderPacked::read_options(&[0xF0, 1]), Ok(HeaderPacked::from_bits(0xF0)));
    assert_eq!(HeaderPacked::read_options(&[]), Err(DecodeError::UnexpectedEnd));
    assert_eq!(ImagePacked::read_options(&[0x81]), Ok(ImagePacked::from_bits(0x81)));
    assert_eq!(ImagePacked::read_options(&[]), Err(DecodeError::UnexpectedEnd));
    assert_eq!(
        GraphicControlExtensionPacked::read_options(&[0x0C]),
        Ok(GraphicControlExtensionPacked::from_bits(0x0C))
    );
    assert_eq!(GraphicControlExtensionPacked::read_options(&[]), Err(DecodeError::UnexpectedEnd));

    let mut out = vec![];
    let header = HeaderPacked::new().with_color_resolution(7).with_sort_flag(true);
    header.write_options(&mut out, HeaderPackedWriteArgs { global_color_table_length: 16 });
    header.write_options(&mut out, HeaderPackedWriteArgs { global_color_table_length: 0 });
    let image = ImagePacked::new().with_interlace_flag(true).with_size_of_local_color_table(7);
    image.write_options(&mut out, ImagePackedWriteArgs { local_color_table_length: 64 });
    image.write_options(&mut out, ImagePackedWriteArgs { local_color_table_length: 0 });
    GraphicControlExtensionPacked::from_bits(0xE5).write_options(&mut out);
    assert_eq!(out, vec![0xFB, 0x78, 0xC5, 0x40, 0x05]);
}
