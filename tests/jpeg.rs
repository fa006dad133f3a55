use rustlab::jpeg::{
    find_data_end, scan, scan_with_limit, take_segment_id, take_soi, take_soi_2, App0,
    ByteCursor, DensityUnit, Frame, JpegParseSegmentsError, ScanResult, Segment, SoiError,
    MAX_SEGMENTS,
};

const APP0_JFIF: [u8; 18] = [
    0xFF, 0xE0, 0x00, 0x10, b'J', b'F', b'I', b'F', 0x00, 0x01, 0x01, 0x01, 0x00, 0x48, 0x00,
    0x48, 0x00, 0x00,
];

fn jfif_app0() -> App0 {
    App0 {
        major_revision_number: 1,
        minor_revision_number: 1,
        units_for_density: 1,
        x_density: 72,
        y_density: 72,
        thumbnail_width: 0,
        thumbnail_height: 0,
    }
}

fn small_image() -> Vec<u8> {
    let mut b = vec![0xFF, 0xD8];
    b.extend_from_slice(&APP0_JFIF);
    b.extend_from_slice(&[0xFF, 0xDB, 0x00, 0x04, 0x00, 0x01]);
    b.extend_from_slice(&[
        0xFF, 0xC0, 0x00, 0x0B, 0x08, 0x00, 0x10, 0x00, 0x20, 0x03, 0x01, 0x11, 0x00,
    ]);
    b.extend_from_slice(&[0xFF, 0xC4, 0x00, 0x03, 0xAA]);
    b.extend_from_slice(&[0xFF, 0xFE, 0x00, 0x04, b'h', b'i']);
    b.extend_from_slice(&[0xFF, 0xDA, 0x00, 0x03, 0x01, 0x12, 0xFF, 0x00, 0x34, 0x56]);
    b.extend_from_slice(&[0xFF, 0xD9]);
    b
}

#[test]
fn start_marker_alone_is_one_segment() {
    let r = scan(&[0xFF, 0xD8]);
    assert_eq!(r, Ok(ScanResult { segments: vec![Segment::StartOfImage], consumed: 2 }));
}

#[test]
fn empty_input_has_no_segments() {
    assert_eq!(scan(&[]), Ok(ScanResult { segments: vec![], consumed: 0 }));
}

#[test]
fn whole_image_is_decoded_and_consumed() {
    let b = small_image();
    let r = scan(&b).unwrap();
    assert_eq!(
        r.segments,
        vec![
            Segment::StartOfImage,
            Segment::Application(jfif_app0()),
            Segment::QuantizationTable,
            Segment::FrameHeader(
                0,
                Frame { data_precision: 8, image_height: 16, image_width: 32, components: 3 }
            ),
            Segment::HuffmanTable,
            Segment::Comment("hi".to_string()),
            Segment::ScanStart,
            Segment::EndOfImage,
        ]
    );
    assert_eq!(r.consumed, b.len());
}

#[test]
fn scan_stops_after_image_end() {
    let b = [0xFF, 0xD8, 0xFF, 0xD9, 0x01, 0x02, 0x03];
    let r = scan(&b).unwrap();
    assert_eq!(r.segments, vec![Segment::StartOfImage, Segment::EndOfImage]);
    assert_eq!(r.consumed, 4);
}

#[test]
fn progressive_frame_is_numbered_two() {
    let b = [0xFF, 0xC2, 0x00, 0x08, 0x0C, 0x01, 0x00, 0x00, 0x80, 0x01];
    let r = scan(&b).unwrap();
    assert_eq!(
        r.segments,
        vec![Segment::FrameHeader(
            2,
            Frame { data_precision: 12, image_height: 256, image_width: 128, components: 1 }
        )]
    );
    assert_eq!(r.consumed, 10);
}

#[test]
fn short_application_length_is_rejected() {
    let b = [0xFF, 0xE0, 0x00, 0x0A, 0x99, 0x99];
    assert_eq!(
        scan(&b),
        Err(JpegParseSegmentsError::InvalidSegmentSize { expected: 16, actual: 10 })
    );
    assert_eq!(scan(&b[..4]), scan(&b));
}

#[test]
fn short_frame_and_table_lengths_are_rejected() {
    assert_eq!(
        scan(&[0xFF, 0xC2, 0x00, 0x05]),
        Err(JpegParseSegmentsError::InvalidSegmentSize { expected: 8, actual: 5 })
    );
    assert_eq!(
        scan(&[0xFF, 0xD8, 0xFF, 0xDB, 0x00, 0x01]),
        Err(JpegParseSegmentsError::InvalidSegmentSize { expected: 2, actual: 1 })
    );
}

#[test]
fn altered_identifier_is_rejected() {
    for i in 4..9 {
        let mut b = APP0_JFIF.to_vec();
        b[i] ^= 0x20;
        assert_eq!(scan(&b), Err(JpegParseSegmentsError::InvalidIdentifier));
    }
}

#[test]
fn unknown_marker_is_unhandled() {
    assert_eq!(
        scan(&[0xFF, 0x37, 0x00, 0x04, 0x00, 0x00]),
        Err(JpegParseSegmentsError::UnhandledSegment(0xFF, 0x37))
    );
    assert_eq!(scan(&[0x12, 0x34]), Err(JpegParseSegmentsError::UnhandledSegment(0x12, 0x34)));
}

#[test]
fn stuffed_byte_is_data_and_next_marker_ends_scan() {
    let b = [0xFF, 0xDA, 0x00, 0x02, 0x11, 0xFF, 0x00, 0xFF, 0xD9];
    let first = scan(&b);
    assert_eq!(
        first,
        Ok(ScanResult { segments: vec![Segment::ScanStart, Segment::EndOfImage], consumed: 9 })
    );
    assert_eq!(scan(&b), first);
}

#[test]
fn scan_data_without_marker_is_truncated() {
    assert_eq!(
        scan(&[0xFF, 0xDA, 0x00, 0x02, 0x11, 0x22]),
        Err(JpegParseSegmentsError::UnexpectedEof)
    );
    assert_eq!(
        scan(&[0xFF, 0xDA, 0x00, 0x02, 0x11, 0xFF]),
        Err(JpegParseSegmentsError::UnexpectedEof)
    );
    assert_eq!(
        scan(&[0xFF, 0xDA, 0x00, 0x02, 0xFF, 0x00]),
        Err(JpegParseSegmentsError::UnexpectedEof)
    );
}

#[test]
fn data_end_skips_stuffed_pairs() {
    let b = [0x01, 0xFF, 0x00, 0x02, 0xFF, 0x00, 0xFF, 0xC4];
    assert_eq!(find_data_end(&b, 0), Ok(6));
    assert_eq!(find_data_end(&b, 6), Ok(6));
    assert_eq!(find_data_end(&b, 8), Err(JpegParseSegmentsError::UnexpectedEof));
}

#[test]
fn segment_count_is_capped() {
    let b: Vec<u8> = [0xFF, 0xD8].repeat(40);
    let r = scan(&b).unwrap();
    assert_eq!(r.segments.len(), MAX_SEGMENTS);
    assert_eq!(r.segments.len(), 32);
    assert_eq!(r.consumed, 64);
    let r5 = scan_with_limit(&b, 5).unwrap();
    assert_eq!(r5.segments, vec![Segment::StartOfImage; 5]);
    assert_eq!(r5.consumed, 10);
    assert_eq!(scan_with_limit(&b, 0), Ok(ScanResult { segments: vec![], consumed: 0 }));
}

#[test]
fn thumbnail_bytes_are_skipped() {
    let mut b = APP0_JFIF.to_vec();
    b[16] = 2;
    b[17] = 1;
    b.extend_from_slice(&[1, 2, 3, 4, 5, 6]);
    b.extend_from_slice(&[0xFF, 0xD9]);
    let r = scan(&b).unwrap();
    let mut a = jfif_app0();
    a.thumbnail_width = 2;
    a.thumbnail_height = 1;
    assert_eq!(r.segments, vec![Segment::Application(a), Segment::EndOfImage]);
    assert_eq!(r.consumed, b.len());
    assert_eq!(scan(&b[..20]), Err(JpegParseSegmentsError::UnexpectedEof));
}

#[test]
fn truncated_segments_fail() {
    assert_eq!(scan(&[0xFF, 0xC4, 0x00]), Err(JpegParseSegmentsError::UnexpectedEof));
    assert_eq!(scan(&[0xFF, 0xC4, 0x00, 0x05, 0x01]), Err(JpegParseSegmentsError::UnexpectedEof));
    assert_eq!(scan(&[0xFF, 0xD8, 0xFF]), Err(JpegParseSegmentsError::UnexpectedEof));
}

#[test]
fn comment_with_invalid_utf8_is_replaced() {
    let r = scan(&[0xFF, 0xFE, 0x00, 0x04, b'a', 0xFF]).unwrap();
    assert_eq!(r.segments, vec![Segment::Comment("a\u{FFFD}".to_string())]);
    let r = scan(&[0xFF, 0xFE, 0x00, 0x02]).unwrap();
    assert_eq!(r.segments, vec![Segment::Comment(String::new())]);
}

#[test]
fn density_units() {
    let mut a = jfif_app0();
    a.units_for_density = 0;
    assert_eq!(a.get_density_unit(), Ok(DensityUnit::NoUnits));
    a.units_for_density = 1;
    assert_eq!(a.get_density_unit(), Ok(DensityUnit::DotsPerInch));
    a.units_for_density = 2;
    assert_eq!(a.get_density_unit(), Ok(DensityUnit::DotsPerCm));
    a.units_for_density = 3;
    assert_eq!(a.get_density_unit(), Err("Unknown density unit"));
}

#[test]
fn start_marker_checks() {
    assert_eq!(take_segment_id(&[0xFF, 0xD8, 0x00]), Ok((0xFF, 0xD8)));
    assert_eq!(take_segment_id(&[0xFF]), Err(JpegParseSegmentsError::UnexpectedEof));
    assert_eq!(take_soi(&[0xFF, 0xD8]), Ok(true));
    assert_eq!(take_soi(&[0xFF, 0xD9]), Ok(false));
    assert_eq!(take_soi(&[0xFF]), Err(JpegParseSegmentsError::UnexpectedEof));
    assert_eq!(take_soi_2(&[0xFF, 0xD9]), Err(SoiError::InvalidSoi));
    assert_eq!(take_soi_2(&[0xFF, 0xD8, 0x01]), Ok((0xFF, 0xD8)));
    assert_eq!(take_soi_2(&[]), Err(SoiError::UnexpectedEof));
}

#[test]
fn cursor_reads_tags_and_lengths() {
    let b = [0xFF, 0xC4, 0x01, 0x02, 0x09];
    let mut c = ByteCursor::new(&b);
    assert_eq!(c.read_tag(), Ok((0xFF, 0xC4)));
    assert_eq!(c.read_length(), Ok(0x0102));
    assert_eq!(c.pos, 4);
    assert_eq!(c.read_length(), Err(JpegParseSegmentsError::UnexpectedEof));
    assert_eq!(c.pos, 4);
    let mut d = ByteCursor::new(&b[2..]);
    assert_eq!(d.decode_segment((0xFF, 0xD9)), Ok(Segment::EndOfImage));
    assert_eq!(d.pos, 0);
    assert_eq!(
        d.read_segment(),
        Err(JpegParseSegmentsError::UnhandledSegment(0x01, 0x02))
    );
}

#[test]
fn many_stuffed_pairs_are_all_data() {
    let mut b = vec![0xFF, 0xDA, 0x00, 0x02];
    for _ in 0..1000 {
        b.extend_from_slice(&[0xFF, 0x00, 0x7F]);
    }
    b.extend_from_slice(&[0xFF, 0xD9]);
    let r = scan(&b).unwrap();
    assert_eq!(r.segments, vec![Segment::ScanStart, Segment::EndOfImage]);
    assert_eq!(r.consumed, b.len());
    b.truncate(b.len() - 2);
    assert_eq!(scan(&b), Err(JpegParseSegmentsError::UnexpectedEof));
}
