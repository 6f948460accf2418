use jpeg_meta::cursor::ByteCursor;
use jpeg_meta::jpeg::{
    decode_chunk, decode_segments_from_buffer, extract_metadata, is_jpeg_file, not_a_jpeg_error,
    JPEGMeta, READ_LEN,
};
use jpeg_meta::DecodeErrorKind;

const APP0_SEGMENT: [u8; 18] = [
    0xFF, 0xE0, 0x00, 0x10, 0x4A, 0x46, 0x49, 0x46, 0x00, 0x01, 0x02, 0x00, 0x00, 0x64, 0x00, 0x64,
    0x00, 0x00,
];

fn minimal_jpeg() -> Vec<u8> {
    let mut data = vec![0xFF, 0xD8];
    data.extend_from_slice(&APP0_SEGMENT);
    data.extend_from_slice(&[0xFF, 0xDA, 0x12, 0x34, 0x56, 0xFF, 0xD9]);
    data
}

fn framed(inner: &[u8]) -> Vec<u8> {
    let mut data = vec![0xFF, 0xD8];
    data.extend_from_slice(inner);
    data.extend_from_slice(&[0xFF, 0xD9]);
    data
}

#[test]
fn it_works() {
    match extract_metadata("examples/test.jpg", minimal_jpeg()) {
        Ok(_jfif) => {}
        Err(e) => {
            println!("{}", e.to_string());
            assert!(false);
        }
    }
}

#[test]
fn minimal_jpeg_decodes() {
    let metadata = extract_metadata("minimal.jpg", minimal_jpeg()).unwrap();
    let app0 = &metadata.app0;
    assert_eq!(app0.length, 16);
    assert_eq!(app0.identifier, [0x4A, 0x46, 0x49, 0x46, 0x00]);
    assert_eq!(app0.version_major, 1);
    assert_eq!(app0.version_minor, 2);
    assert_eq!(app0.density_units, 0);
    assert_eq!(app0.xdensity, 100);
    assert_eq!(app0.ydensity, 100);
    assert_eq!(app0.xthumbnail, 0);
    assert_eq!(app0.ythumbnail, 0);
    assert!(app0.thumbnail_data.is_empty());
}

#[test]
fn minimal_jpeg_reaches_start_of_scan() {
    let mut buffer = ByteCursor::new(minimal_jpeg());
    let mut metadata = JPEGMeta::default();
    let reached = decode_segments_from_buffer(&mut buffer, &mut metadata).unwrap();
    assert!(reached);
    assert_eq!(buffer.position(), 22);
    assert_eq!(metadata.app0.version_major, 1);
    assert_eq!(metadata.app0.version_minor, 2);
    assert_eq!(metadata.app0.xdensity, 0x0064);
    assert_eq!(metadata.app0.ydensity, 0x0064);
}

#[test]
fn sniffer_accepts_framed_source() {
    let mut source = ByteCursor::new(minimal_jpeg());
    assert!(is_jpeg_file(&mut source).unwrap());
    let mut smallest = ByteCursor::new(vec![0xFF, 0xD8, 0xFF, 0xD9]);
    assert!(is_jpeg_file(&mut smallest).unwrap());
}

#[test]
fn sniffer_rejects_wrong_start() {
    let mut data = minimal_jpeg();
    data[1] = 0xD9;
    let mut source = ByteCursor::new(data);
    assert!(!is_jpeg_file(&mut source).unwrap());
    let mut other = ByteCursor::new(vec![0x89, 0x50, 0x4E, 0x47, 0xFF, 0xD9]);
    assert!(!is_jpeg_file(&mut other).unwrap());
}

#[test]
fn sniffer_rejects_wrong_end() {
    let mut data = minimal_jpeg();
    data.push(0x00);
    let mut source = ByteCursor::new(data);
    assert!(!is_jpeg_file(&mut source).unwrap());
    let mut overlapping = ByteCursor::new(vec![0xFF, 0xD8, 0xD9]);
    assert!(!is_jpeg_file(&mut overlapping).unwrap());
    let mut only_start = ByteCursor::new(vec![0xFF, 0xD8]);
    assert!(!is_jpeg_file(&mut only_start).unwrap());
}

#[test]
fn sniffer_fails_on_short_source() {
    let mut empty = ByteCursor::new(Vec::new());
    let e = is_jpeg_file(&mut empty).unwrap_err();
    assert_eq!(e.kind(), DecodeErrorKind::Other);
    assert_eq!(e.reason(), "failed to fill whole buffer");
    let mut one = ByteCursor::new(vec![0xFF]);
    let e = is_jpeg_file(&mut one).unwrap_err();
    assert_eq!(e.kind(), DecodeErrorKind::Other);
    assert_eq!(one.position(), 0);
}

#[test]
fn sniffer_rewinds_on_success() {
    let mut source = ByteCursor::new(minimal_jpeg());
    source.set_position(9);
    assert!(is_jpeg_file(&mut source).unwrap());
    assert_eq!(source.position(), 0);
    assert!(is_jpeg_file(&mut source).unwrap());
    assert_eq!(source.position(), 0);
    assert_eq!(source.get_ref(), &minimal_jpeg());
}

#[test]
fn sniffer_position_after_rejection() {
    let mut wrong_start = ByteCursor::new(vec![0x00, 0xD8, 0x01, 0xFF, 0xD9]);
    assert!(!is_jpeg_file(&mut wrong_start).unwrap());
    assert_eq!(wrong_start.position(), 2);
    let mut wrong_end = ByteCursor::new(vec![0xFF, 0xD8, 0x01, 0xFF, 0xD8]);
    assert!(!is_jpeg_file(&mut wrong_end).unwrap());
    assert_eq!(wrong_end.position(), 5);
}

#[test]
fn not_a_jpeg_is_invalid_format() {
    let e = extract_metadata("notes.txt", vec![0x68, 0x65, 0x6C, 0x6C, 0x6F]).unwrap_err();
    assert_eq!(e.kind(), DecodeErrorKind::InvalidFormat);
    assert_eq!(e.reason(), "File notes.txt is not a JPEG file");
    assert_eq!(
        e.to_string(),
        "DecodeError { kind: InvalidFormat, reason: File notes.txt is not a JPEG file }"
    );
}

#[test]
fn wrong_end_is_invalid_format_before_any_decoding() {
    // The APP0 segment is malformed, but the frame is checked first.
    let mut data = vec![0xFF, 0xD8, 0xFF, 0xE0, 0x00, 0x10, 0x58, 0x58, 0x58, 0x58, 0x00];
    data.extend_from_slice(&[0xFF, 0xD8]);
    let e = extract_metadata("a.jpg", data).unwrap_err();
    assert_eq!(e.kind(), DecodeErrorKind::InvalidFormat);
}

#[test]
fn short_file_is_a_read_failure() {
    let e = extract_metadata("empty.jpg", Vec::new()).unwrap_err();
    assert_eq!(e.kind(), DecodeErrorKind::Other);
    assert_eq!(e.reason(), "failed to fill whole buffer");
}

#[test]
fn file_without_start_of_scan_gives_what_was_gathered() {
    let metadata = extract_metadata("bare.jpg", vec![0xFF, 0xD8, 0xFF, 0xD9]).unwrap();
    assert_eq!(metadata.app0.length, 0);
    assert_eq!(metadata.app0.identifier, [0, 0, 0, 0, 0]);
    let mut inner = APP0_SEGMENT.to_vec();
    inner.extend_from_slice(&[0x01, 0x02, 0x03]);
    let metadata = extract_metadata("short.jpg", framed(&inner)).unwrap();
    assert_eq!(metadata.app0.length, 16);
    assert_eq!(metadata.app0.xdensity, 100);
}

#[test]
fn segment_behind_the_first_chunk_is_decoded() {
    // The segment starts exactly where the second chunk starts.
    let mut inner = vec![0x00; READ_LEN - 2];
    inner.extend_from_slice(&APP0_SEGMENT);
    inner.extend_from_slice(&[0xFF, 0xDA]);
    let metadata = extract_metadata("big.jpg", framed(&inner)).unwrap();
    assert_eq!(metadata.app0.length, 16);
    assert_eq!(metadata.app0.identifier, [0x4A, 0x46, 0x49, 0x46, 0x00]);
    assert_eq!(metadata.app0.version_major, 1);
    assert_eq!(metadata.app0.version_minor, 2);
    assert_eq!(metadata.app0.xdensity, 100);
    assert_eq!(metadata.app0.ydensity, 100);
    // And far behind it.
    let mut inner = vec![0x00; 5 * READ_LEN + 123];
    inner.extend_from_slice(&APP0_SEGMENT);
    inner.extend_from_slice(&[0xFF, 0xDA]);
    let metadata = extract_metadata("bigger.jpg", framed(&inner)).unwrap();
    assert_eq!(metadata.app0.length, 16);
    assert_eq!(metadata.app0.xdensity, 100);
}

#[test]
fn segment_at_the_start_of_a_long_file() {
    let mut inner = APP0_SEGMENT.to_vec();
    inner.extend_from_slice(&vec![0x00; 3 * READ_LEN]);
    let metadata = extract_metadata("long.jpg", framed(&inner)).unwrap();
    assert_eq!(metadata.app0.length, 16);
    assert_eq!(metadata.app0.xdensity, 100);
    assert_eq!(metadata.app0.version_minor, 2);
}

#[test]
fn file_of_exactly_one_chunk() {
    let inner = vec![0x00; READ_LEN - 4];
    let data = framed(&inner);
    assert_eq!(data.len(), READ_LEN);
    // The file ends with the first chunk and holds no segment.
    let metadata = extract_metadata("chunk.jpg", data).unwrap();
    assert_eq!(metadata.app0.length, 0);
}

#[test]
fn marker_across_the_chunk_boundary_is_read_whole() {
    // The marker start is the last byte of the first chunk, the APP0 code
    // the first byte of the second.
    let mut inner = vec![0x00; READ_LEN - 3];
    inner.extend_from_slice(&APP0_SEGMENT);
    inner.extend_from_slice(&[0xFF, 0xDA]);
    let data = framed(&inner);
    assert_eq!(data[READ_LEN - 1], 0xFF);
    assert_eq!(data[READ_LEN], 0xE0);
    let metadata = extract_metadata("edge.jpg", data).unwrap();
    assert_eq!(metadata.app0.length, 16);
    assert_eq!(metadata.app0.version_minor, 2);
    // The same for the start of scan: the segment behind it is not read.
    let mut inner = vec![0x00; READ_LEN - 3];
    inner.extend_from_slice(&[0xFF, 0xDA]);
    inner.extend_from_slice(&APP0_SEGMENT);
    let metadata = extract_metadata("edge.jpg", framed(&inner)).unwrap();
    assert_eq!(metadata.app0.length, 0);
}

#[test]
fn segment_across_the_chunk_boundary_is_decoded() {
    // The APP0 marker stands at offset 4090: the segment begins in the
    // first chunk and ends in the second.
    let mut data = vec![0xFF, 0xD8];
    data.extend_from_slice(&vec![0x00; 4088]);
    data.extend_from_slice(&APP0_SEGMENT);
    data.extend_from_slice(&[0xFF, 0xDA, 0xFF, 0xD9]);
    assert_eq!(&data[4090..4092], &[0xFF, 0xE0]);
    let metadata = extract_metadata("split.jpg", data).unwrap();
    assert_eq!(metadata.app0.length, 16);
    assert_eq!(metadata.app0.version_major, 1);
    assert_eq!(metadata.app0.version_minor, 2);
    assert_eq!(metadata.app0.density_units, 0);
    assert_eq!(metadata.app0.xdensity, 100);
    assert_eq!(metadata.app0.ydensity, 100);
    assert_eq!(metadata.app0.xthumbnail, 0);
    assert_eq!(metadata.app0.ythumbnail, 0);
    // Every place of the boundary inside the segment gives the same.
    for before in READ_LEN - 22..READ_LEN {
        let mut inner = vec![0x00; before];
        inner.extend_from_slice(&APP0_SEGMENT);
        inner.extend_from_slice(&[0xFF, 0xDA]);
        let metadata = extract_metadata("split.jpg", framed(&inner)).unwrap();
        assert_eq!(metadata.app0.length, 16);
        assert_eq!(metadata.app0.xdensity, 100);
        assert_eq!(metadata.app0.version_minor, 2);
    }
}

#[test]
fn thumbnail_longer_than_a_chunk_is_decoded() {
    let pixels: Vec<u8> = (0..3 * 60 * 40).map(|i| (i % 251) as u8).collect();
    let mut inner = APP0_SEGMENT.to_vec();
    inner[16] = 60;
    inner[17] = 40;
    inner.extend_from_slice(&pixels);
    inner.extend_from_slice(&[0xFF, 0xDA]);
    let metadata = extract_metadata("thumb.jpg", framed(&inner)).unwrap();
    assert_eq!(metadata.app0.xthumbnail, 60);
    assert_eq!(metadata.app0.ythumbnail, 40);
    assert_eq!(metadata.app0.thumbnail_data.len(), 7200);
    assert_eq!(metadata.app0.thumbnail_data, pixels);
}

#[test]
fn exif_segment_is_unsupported() {
    let inner = [0xFF, 0xE1, 0x00, 0x08, 0x45, 0x78, 0x69, 0x66, 0x00, 0x00, 0xFF, 0xDA];
    let e = extract_metadata("exif.jpg", framed(&inner)).unwrap_err();
    assert_eq!(e.kind(), DecodeErrorKind::Other);
    assert_eq!(e.reason(), "EXIF decoding not implemented!");
}

#[test]
fn second_segment_replaces_the_first() {
    let mut inner = APP0_SEGMENT.to_vec();
    let mut second = APP0_SEGMENT;
    second[9] = 2;
    second[10] = 1;
    second[11] = 1;
    second[12] = 0x01;
    second[13] = 0x2C;
    inner.extend_from_slice(&second);
    inner.extend_from_slice(&[0xFF, 0xDA]);
    let metadata = extract_metadata("two.jpg", framed(&inner)).unwrap();
    assert_eq!(metadata.app0.version_major, 2);
    assert_eq!(metadata.app0.version_minor, 1);
    assert_eq!(metadata.app0.density_units, 1);
    assert_eq!(metadata.app0.xdensity, 300);
    assert_eq!(metadata.app0.ydensity, 100);
}

#[test]
fn failure_in_second_segment_fails_the_file() {
    let mut inner = APP0_SEGMENT.to_vec();
    let mut second = APP0_SEGMENT;
    second[11] = 2;
    inner.extend_from_slice(&second);
    inner.extend_from_slice(&[0xFF, 0xDA]);
    let e = extract_metadata("two.jpg", framed(&inner)).unwrap_err();
    assert_eq!(e.kind(), DecodeErrorKind::BadData);
}

#[test]
fn file_that_ends_inside_a_segment_is_a_read_failure() {
    // The file ends before the identifier is complete, the end marker
    // counted in.
    for kept in 2..=6 {
        let e = extract_metadata("cut.jpg", framed(&APP0_SEGMENT[..kept])).unwrap_err();
        assert_eq!(e.kind(), DecodeErrorKind::Other);
        assert_eq!(e.reason(), "failed to fill whole buffer");
    }
    // The file ends behind the identifier, before the density unit.
    let e = extract_metadata("cut.jpg", framed(&APP0_SEGMENT[..9])).unwrap_err();
    assert_eq!(e.kind(), DecodeErrorKind::Other);
    // The file ends behind the density unit, before the thumbnail size.
    for kept in 12..=15 {
        let e = extract_metadata("cut.jpg", framed(&APP0_SEGMENT[..kept])).unwrap_err();
        assert_eq!(e.kind(), DecodeErrorKind::Other);
    }
}

#[test]
fn end_marker_inside_a_segment_is_read_as_its_fields() {
    // The end marker stands where the identifier should go on: it is no
    // text.
    let e = extract_metadata("cut.jpg", framed(&APP0_SEGMENT[..8])).unwrap_err();
    assert_eq!(e.kind(), DecodeErrorKind::BadData);
    // The end marker stands where the density unit is read.
    let e = extract_metadata("cut.jpg", framed(&APP0_SEGMENT[..10])).unwrap_err();
    assert_eq!(e.kind(), DecodeErrorKind::BadData);
    assert!(e.reason().ends_with("got D9 instead"));
}

#[test]
fn thumbnail_is_part_of_the_metadata() {
    let mut inner = APP0_SEGMENT.to_vec();
    inner[3] = 0x13;
    inner[16] = 1;
    inner[17] = 1;
    inner.extend_from_slice(&[0xFF, 0xDA, 0x07]);
    inner.extend_from_slice(&[0xFF, 0xDA]);
    let metadata = extract_metadata("thumb.jpg", framed(&inner)).unwrap();
    assert_eq!(metadata.app0.length, 19);
    assert_eq!(metadata.app0.xthumbnail, 1);
    assert_eq!(metadata.app0.ythumbnail, 1);
    assert_eq!(metadata.app0.thumbnail_data, vec![0xFF, 0xDA, 0x07]);
}

#[test]
fn thumbnail_that_is_not_all_there_is_a_read_failure() {
    let mut inner = APP0_SEGMENT.to_vec();
    inner[16] = 2;
    inner[17] = 2;
    inner.extend_from_slice(&[0x00; 7]);
    let e = extract_metadata("thumb.jpg", framed(&inner)).unwrap_err();
    assert_eq!(e.kind(), DecodeErrorKind::Other);
}

#[test]
fn chunks_are_taken_in_one_by_one() {
    let data = minimal_jpeg();
    let mut buffer = ByteCursor::new(Vec::new());
    let mut metadata = JPEGMeta::default();
    // The first chunk ends inside the segment: the decoding wants more, and
    // the position waits at the marker start.
    assert!(!decode_chunk(&mut buffer, &mut metadata, &data[..10]).unwrap());
    assert_eq!(buffer.position(), 2);
    assert_eq!(metadata.app0.length, 0);
    // Still inside the segment.
    assert!(!decode_chunk(&mut buffer, &mut metadata, &data[10..19]).unwrap());
    assert_eq!(buffer.position(), 2);
    // The segment is complete, the start of scan is not: its marker start
    // is the last byte.
    assert!(!decode_chunk(&mut buffer, &mut metadata, &data[19..21]).unwrap());
    assert_eq!(buffer.position(), 20);
    assert_eq!(metadata.app0.length, 16);
    assert!(decode_chunk(&mut buffer, &mut metadata, &data[21..]).unwrap());
    assert_eq!(buffer.position(), 22);
    assert_eq!(buffer.len(), data.len());
    assert_eq!(metadata.app0.xdensity, 100);
    // The whole file in one chunk gives the same.
    let mut buffer = ByteCursor::new(Vec::new());
    let mut metadata = JPEGMeta::default();
    assert!(decode_chunk(&mut buffer, &mut metadata, &data).unwrap());
    assert_eq!(buffer.position(), 22);
    assert_eq!(metadata.app0.xdensity, 100);
}

#[test]
fn empty_chunk_ends_the_decoding() {
    let mut buffer = ByteCursor::new(vec![0x00; READ_LEN]);
    buffer.set_position(READ_LEN);
    let mut metadata = JPEGMeta::default();
    assert!(decode_chunk(&mut buffer, &mut metadata, &[]).unwrap());
    assert_eq!(buffer.len(), READ_LEN);
    assert_eq!(buffer.position(), READ_LEN);
    let mut fresh = ByteCursor::new(Vec::new());
    assert!(decode_chunk(&mut fresh, &mut metadata, &[]).unwrap());
    assert_eq!(fresh.position(), 0);
}

#[test]
fn source_that_ends_inside_a_segment_fails_at_its_end() {
    for kept in 2..APP0_SEGMENT.len() {
        let mut buffer = ByteCursor::new(Vec::new());
        let mut metadata = JPEGMeta::default();
        let mut data = vec![0x01, 0x02, 0x03];
        data.extend_from_slice(&APP0_SEGMENT[..kept]);
        // While the source may go on, a segment cut short is no failure.
        assert!(!decode_chunk(&mut buffer, &mut metadata, &data).unwrap());
        assert_eq!(buffer.position(), 3);
        // When it has ended, it is one.
        let e = decode_chunk(&mut buffer, &mut metadata, &[]).unwrap_err();
        assert_eq!(e.kind(), DecodeErrorKind::Other);
        assert_eq!(e.reason(), "failed to fill whole buffer");
        assert_eq!(buffer.position(), 3);
        assert_eq!(metadata.app0.length, 0);
    }
    // A marker start without its code is cut short as well.
    let mut buffer = ByteCursor::new(Vec::new());
    let mut metadata = JPEGMeta::default();
    assert!(!decode_chunk(&mut buffer, &mut metadata, &[0x01, 0xFF]).unwrap());
    assert_eq!(buffer.position(), 1);
    let e = decode_chunk(&mut buffer, &mut metadata, &[]).unwrap_err();
    assert_eq!(e.kind(), DecodeErrorKind::Other);
}

fn decode_in_chunks_of(data: &[u8], size: usize) -> Result<JPEGMeta, jpeg_meta::DecodeError> {
    let mut buffer = ByteCursor::new(Vec::new());
    let mut metadata = JPEGMeta::default();
    let mut fetched = 0;
    loop {
        let next = usize::min(fetched + size, data.len());
        if decode_chunk(&mut buffer, &mut metadata, &data[fetched..next])? {
            return Ok(metadata);
        }
        fetched = next;
    }
}

#[test]
fn chunk_size_does_not_matter() {
    let mut with_thumbnail = APP0_SEGMENT.to_vec();
    with_thumbnail[16] = 2;
    with_thumbnail[17] = 3;
    with_thumbnail.extend_from_slice(&[0xFF, 0xDA, 0xFF, 0xE1, 0xFF, 0x00, 7, 8, 9, 10, 11, 12]);
    with_thumbnail.extend_from_slice(&[0, 0, 0, 0, 0, 0, 0xFF, 0xFF, 0x05, 0xFF, 0xDA, 0x01]);
    let mut bad_units = APP0_SEGMENT.to_vec();
    bad_units[11] = 7;
    bad_units.extend_from_slice(&[0xFF, 0xDA]);
    let mut bad_identifier = APP0_SEGMENT.to_vec();
    bad_identifier[6] = 0x58;
    let mut two = APP0_SEGMENT.to_vec();
    two.extend_from_slice(&[0xFF, 0xC0, 0x11]);
    two.extend_from_slice(&APP0_SEGMENT);
    two[21 + 13] = 0x65;
    two.extend_from_slice(&[0xFF, 0xDA]);
    let files = vec![
        minimal_jpeg(),
        framed(&[]),
        framed(&with_thumbnail),
        framed(&bad_units),
        framed(&bad_identifier),
        framed(&two),
        framed(&APP0_SEGMENT[..12]),
        framed(&[0x00, 0xFF, 0xE1, 0x00, 0x02]),
        framed(&[0x00, 0x01, 0xFF]),
    ];
    for data in files {
        let whole = extract_metadata("file.jpg", data.clone());
        for size in 1..=data.len() + 1 {
            let chunked = decode_in_chunks_of(&data, size);
            match (&whole, &chunked) {
                (Ok(a), Ok(b)) => {
                    assert_eq!(a.app0.length, b.app0.length);
                    assert_eq!(a.app0.identifier, b.app0.identifier);
                    assert_eq!(a.app0.version_major, b.app0.version_major);
                    assert_eq!(a.app0.version_minor, b.app0.version_minor);
                    assert_eq!(a.app0.density_units, b.app0.density_units);
                    assert_eq!(a.app0.xdensity, b.app0.xdensity);
                    assert_eq!(a.app0.ydensity, b.app0.ydensity);
                    assert_eq!(a.app0.xthumbnail, b.app0.xthumbnail);
                    assert_eq!(a.app0.ythumbnail, b.app0.ythumbnail);
                    assert_eq!(a.app0.thumbnail_data, b.app0.thumbnail_data);
                }
                (Err(a), Err(b)) => {
                    assert_eq!(a.kind(), b.kind());
                    assert_eq!(a.reason(), b.reason());
                }
                _ => panic!("chunks of {} bytes give another result", size),
            }
        }
    }
}

#[test]
fn later_chunks_are_scanned_too() {
    let mut buffer = ByteCursor::new(Vec::new());
    let mut metadata = JPEGMeta::default();
    assert!(!decode_chunk(&mut buffer, &mut metadata, &vec![0x00; READ_LEN]).unwrap());
    assert_eq!(buffer.position(), READ_LEN);
    let mut second = APP0_SEGMENT.to_vec();
    second.extend_from_slice(&[0xFF, 0xDA]);
    assert!(decode_chunk(&mut buffer, &mut metadata, &second).unwrap());
    assert_eq!(buffer.len(), READ_LEN + 20);
    assert_eq!(buffer.position(), READ_LEN + 20);
    assert_eq!(metadata.app0.length, 16);
    assert_eq!(metadata.app0.xdensity, 100);
}

#[test]
fn chunked_decoding_agrees_with_the_whole_file() {
    let mut inner = APP0_SEGMENT.to_vec();
    inner.extend_from_slice(&vec![0x11; 2 * READ_LEN + 17]);
    let data = framed(&inner);
    let whole = extract_metadata("long.jpg", data.clone()).unwrap();

    let mut source = ByteCursor::new(data);
    assert!(is_jpeg_file(&mut source).unwrap());
    let mut buffer = ByteCursor::new(Vec::new());
    let mut metadata = JPEGMeta::default();
    let mut fetches = 0;
    loop {
        let chunk = source.read_chunk(READ_LEN);
        fetches += 1;
        if decode_chunk(&mut buffer, &mut metadata, &chunk).unwrap() {
            break;
        }
    }
    assert_eq!(fetches, 4);
    assert_eq!(metadata.app0.length, whole.app0.length);
    assert_eq!(metadata.app0.identifier, whole.app0.identifier);
    assert_eq!(metadata.app0.xdensity, whole.app0.xdensity);
    assert_eq!(metadata.app0.ydensity, whole.app0.ydensity);
    assert_eq!(metadata.app0.version_minor, 2);
}

#[test]
fn failure_for_a_source_that_is_no_jpeg_file() {
    let e = not_a_jpeg_error("/tmp/a b.png");
    assert_eq!(e.kind(), DecodeErrorKind::InvalidFormat);
    assert_eq!(e.reason(), "File /tmp/a b.png is not a JPEG file");
}
