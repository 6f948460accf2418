//! What holds of the decoder for every input: a JFIF segment written out
//! and decoded again is the same segment, a segment cut short is a failure
//! of the source and never a segment, fill codes are never taken for
//! markers, and a source gives the same metadata whatever the size of the
//! chunks it is fetched in.

use crate::cursor::{be_u16_value, unexpected_eof};
use crate::jpeg::{
    decoded, decoded_in_chunks, invalid_density_units, is_fill_code, is_jpeg, jfif_identifier,
    lemma_jfif_identifier_is_text, metadata_of, parse_app0, scan, scan_to_end, take_chunk,
    thumbnail_len, valid_density_units, wrong_identifier, APP0View, JPEGMetaView, ScanResult,
    JPEG_APP0_CODE, JPEG_APP1_CODE, JPEG_SEGMENT_MARKER_START, JPEG_SOS_CODE,
};
use crate::text::malformed_text;
use crate::{DecodeErrorKind, ErrorView};
use vstd::prelude::*;
use vstd::utf8::*;

verus! {

/// The high byte of a 16-bit value.
pub open spec fn high_byte(value: u16) -> u8 {
    (value / 256) as u8
}

/// The low byte of a 16-bit value.
pub open spec fn low_byte(value: u16) -> u8 {
    (value % 256) as u8
}

/// The bytes of a JFIF segment as they follow the APP0 marker: the fields
/// in their order, 16-bit fields with the high byte first, then the
/// thumbnail.
pub open spec fn encode_app0(app0: APP0View) -> Seq<u8> {
    seq![high_byte(app0.length), low_byte(app0.length)] + app0.identifier + seq![
        app0.version_major,
        app0.version_minor,
        app0.density_units,
        high_byte(app0.xdensity),
        low_byte(app0.xdensity),
        high_byte(app0.ydensity),
        low_byte(app0.ydensity),
        app0.xthumbnail,
        app0.ythumbnail,
    ] + app0.thumbnail_data
}

/// A 16-bit value is the big-endian value of its high and its low byte.
pub proof fn lemma_be_u16_of_bytes(value: u16)
    ensures
        be_u16_value(high_byte(value), low_byte(value)) == value,
{
}

/// Decoding gives back what was written: the bytes of a JFIF segment,
/// whatever follows them, decode to that segment and to nothing but their
/// own length.
pub proof fn lemma_app0_round_trip(app0: APP0View, after: Seq<u8>)
    requires
        app0.is_jfif(),
    ensures
        parse_app0(encode_app0(app0) + after) == Ok::<(APP0View, int), ErrorView>(
            (app0, encode_app0(app0).len() as int),
        ),
        encode_app0(app0).len() == 16 + thumbnail_len(app0.xthumbnail, app0.ythumbnail),
{
    let rest = encode_app0(app0) + after;
    let size = thumbnail_len(app0.xthumbnail, app0.ythumbnail);
    lemma_jfif_identifier_is_text();
    lemma_be_u16_of_bytes(app0.length);
    lemma_be_u16_of_bytes(app0.xdensity);
    lemma_be_u16_of_bytes(app0.ydensity);
    assert(rest.subrange(2, 7) =~= app0.identifier);
    assert(rest.subrange(16, 16 + size) =~= app0.thumbnail_data);
}

/// A segment cut short is never decoded: of the bytes of a JFIF segment
/// with the end missing, be it one byte or all of them, the decoding fails
/// for want of bytes.
pub proof fn lemma_truncated_app0(app0: APP0View, kept: int)
    requires
        app0.is_jfif(),
        0 <= kept < encode_app0(app0).len(),
    ensures
        parse_app0(encode_app0(app0).take(kept)) == Err::<(APP0View, int), ErrorView>(
            unexpected_eof(),
        ),
{
    let rest = encode_app0(app0).take(kept);
    lemma_jfif_identifier_is_text();
    if kept >= 7 {
        assert(rest.subrange(2, 7) =~= app0.identifier);
    }
}

/// A segment whose identifier is not the JFIF one is refused as bad data,
/// whatever follows the identifier; where the identifier is text, the
/// reason names the tag that was expected and the text that was found.
pub proof fn lemma_identifier_checked(rest: Seq<u8>)
    requires
        rest.len() >= 7,
        rest.subrange(2, 7) != jfif_identifier(),
    ensures
        parse_app0(rest) is Err,
        parse_app0(rest)->Err_0.kind == DecodeErrorKind::BadData,
        valid_utf8(rest.subrange(2, 7)) ==> parse_app0(rest)->Err_0 == wrong_identifier(
            rest.subrange(2, 7),
        ),
        !valid_utf8(rest.subrange(2, 7)) ==> parse_app0(rest)->Err_0 == malformed_text(
            rest.subrange(2, 7),
        ),
{
}

/// A JFIF segment whose density unit is none of the three is refused as
/// bad data, and the reason names the byte.
pub proof fn lemma_density_units_checked(rest: Seq<u8>)
    requires
        rest.len() >= 10,
        rest.subrange(2, 7) == jfif_identifier(),
        !valid_density_units(rest[9]),
    ensures
        parse_app0(rest) == Err::<(APP0View, int), ErrorView>(invalid_density_units(rest[9])),
        invalid_density_units(rest[9]).kind == DecodeErrorKind::BadData,
{
    lemma_jfif_identifier_is_text();
}

/// The fill codes `00` and `FF` behind a marker start are not markers: the
/// scan passes over both bytes and goes on behind them, with the metadata
/// as it was.
pub proof fn lemma_fill_code_passed_over(bytes: Seq<u8>, position: int, metadata: JPEGMetaView)
    requires
        0 <= position,
        position + 1 < bytes.len(),
        bytes[position] == JPEG_SEGMENT_MARKER_START,
        is_fill_code(bytes[position + 1]),
    ensures
        scan(bytes, position, metadata) == scan(bytes, position + 2, metadata),
{
}

/// Only the first two and the last two bytes of a source decide whether it
/// is framed as a JPEG file: the source is framed exactly if those four
/// bytes alone are.
pub proof fn lemma_frame_decides(bytes: Seq<u8>)
    requires
        bytes.len() >= 2,
    ensures
        is_jpeg(bytes) == is_jpeg(bytes.take(2) + bytes.skip(bytes.len() - 2)),
{
    let frame = bytes.take(2) + bytes.skip(bytes.len() - 2);
    assert(frame.take(2) =~= bytes.take(2));
    assert(frame.skip(frame.len() - 2) =~= bytes.skip(bytes.len() - 2));
}

/// Bytes other than the marker start are passed over: where none of the
/// bytes from `position` up to `next` is a marker start, the scan from
/// `position` is the scan from `next`.
pub proof fn lemma_plain_bytes_passed_over(
    bytes: Seq<u8>,
    position: int,
    next: int,
    metadata: JPEGMetaView,
)
    requires
        0 <= position <= next,
        next <= bytes.len(),
        forall|i: int| position <= i < next ==> bytes[i] != JPEG_SEGMENT_MARKER_START,
    ensures
        scan(bytes, position, metadata) == scan(bytes, next, metadata),
    decreases next - position,
{
    if position < next {
        lemma_plain_bytes_passed_over(bytes, position + 1, next, metadata);
    }
}

/// A file whose first marker behind the start of image is the APP0 marker
/// of a JFIF segment, at the offset `at`, with the start of scan right
/// behind the segment, and that ends with the end of image, has that
/// segment as its metadata: however far from the start of the file the
/// segment stands, and whatever lies between the start of scan and the end
/// of image.
pub proof fn lemma_jfif_file(filepath: Seq<char>, app0: APP0View, at: int, bytes: Seq<u8>)
    requires
        app0.is_jfif(),
        is_jpeg(bytes),
        ({
            let size = encode_app0(app0).len() as int;
            &&& 2 <= at
            &&& at + 4 + size <= bytes.len()
            &&& forall|i: int| 2 <= i < at ==> bytes[i] != JPEG_SEGMENT_MARKER_START
            &&& bytes.subrange(at, at + 2) == seq![JPEG_SEGMENT_MARKER_START, JPEG_APP0_CODE]
            &&& bytes.subrange(at + 2, at + 2 + size) == encode_app0(app0)
            &&& bytes.subrange(at + 2 + size, at + 4 + size) == seq![
                JPEG_SEGMENT_MARKER_START,
                JPEG_SOS_CODE,
            ]
        }),
    ensures
        metadata_of(filepath, bytes) == Ok::<JPEGMetaView, ErrorView>(JPEGMetaView { app0 }),
{
    let size = encode_app0(app0).len() as int;
    let empty = JPEGMetaView::empty();
    let found = JPEGMetaView { app0 };
    let after = bytes.skip(at + 2 + size);
    // The start of image is a marker that is passed over, and so are the
    // bytes up to the segment.
    assert(bytes[0] == bytes.take(2)[0] && bytes[1] == bytes.take(2)[1]);
    assert(scan(bytes, 0, empty) == scan(bytes, 2, empty));
    lemma_plain_bytes_passed_over(bytes, 2, at, empty);
    // There stands the segment, which is decoded whole.
    assert(bytes[at] == bytes.subrange(at, at + 2)[0]);
    assert(bytes[at + 1] == bytes.subrange(at, at + 2)[1]);
    assert(bytes.skip(at + 2) =~= encode_app0(app0) + after) by {
        assert forall|i: int| 0 <= i < size implies bytes.skip(at + 2)[i] == encode_app0(
            app0,
        )[i] by {
            assert(bytes.skip(at + 2)[i] == bytes.subrange(at + 2, at + 2 + size)[i]);
        }
    }
    lemma_app0_round_trip(app0, after);
    assert(scan(bytes, at, empty) == scan(bytes, at + 2 + size, found));
    // Behind the segment stands the start of scan.
    assert(bytes[at + 2 + size] == bytes.subrange(at + 2 + size, at + 4 + size)[0]);
    assert(bytes[at + 3 + size] == bytes.subrange(at + 2 + size, at + 4 + size)[1]);
    assert(scan(bytes, at + 2 + size, found) == ScanResult {
        outcome: Ok(true),
        position: at + 4 + size,
        metadata: found,
    });
}

/// A scan keeps the metadata well formed: what it ends with is what it
/// started with or a decoded JFIF segment.
pub proof fn lemma_scan_keeps_well_formed(bytes: Seq<u8>, position: int, metadata: JPEGMetaView)
    requires
        metadata.well_formed(),
    ensures
        scan(bytes, position, metadata).metadata.well_formed(),
    decreases bytes.len() - position,
{
    if position < 0 || position >= bytes.len() {
    } else if bytes[position] != JPEG_SEGMENT_MARKER_START {
        lemma_scan_keeps_well_formed(bytes, position + 1, metadata);
    } else if position + 1 >= bytes.len() {
    } else if is_fill_code(bytes[position + 1]) {
        lemma_scan_keeps_well_formed(bytes, position + 2, metadata);
    } else if bytes[position + 1] == JPEG_SOS_CODE {
    } else if bytes[position + 1] == JPEG_APP0_CODE {
        match parse_app0(bytes.skip(position + 2)) {
            Ok((app0, used)) => {
                lemma_scan_keeps_well_formed(bytes, position + 2 + used, JPEGMetaView { app0 });
            },
            Err(e) => {},
        }
    } else if bytes[position + 1] == JPEG_APP1_CODE {
    } else {
        lemma_scan_keeps_well_formed(bytes, position + 2, metadata);
    }
}

/// A scan never ends before the place it started from, nor behind the end
/// of the buffer unless it started there.
pub proof fn lemma_scan_end(bytes: Seq<u8>, position: int, metadata: JPEGMetaView)
    requires
        0 <= position,
    ensures
        scan(bytes, position, metadata).position >= position,
        scan(bytes, position, metadata).position <= bytes.len() || scan(
            bytes,
            position,
            metadata,
        ).position == position,
    decreases bytes.len() - position,
{
    if position >= bytes.len() {
    } else if bytes[position] != JPEG_SEGMENT_MARKER_START {
        lemma_scan_end(bytes, position + 1, metadata);
    } else if position + 1 >= bytes.len() {
    } else if is_fill_code(bytes[position + 1]) {
        lemma_scan_end(bytes, position + 2, metadata);
    } else if bytes[position + 1] == JPEG_SOS_CODE {
    } else if bytes[position + 1] == JPEG_APP0_CODE {
        match parse_app0(bytes.skip(position + 2)) {
            Ok((app0, used)) => {
                lemma_scan_end(bytes, position + 2 + used, JPEGMetaView { app0 });
            },
            Err(e) => {},
        }
    } else if bytes[position + 1] == JPEG_APP1_CODE {
    } else {
        lemma_scan_end(bytes, position + 2, metadata);
    }
}

/// What the bytes behind an APP0 marker hold does not change when more
/// bytes follow, unless the bytes end before the segment does: a segment
/// stays that segment, and a failure of its content stays that failure.
pub proof fn lemma_parse_app0_stable(rest: Seq<u8>, more: Seq<u8>)
    requires
        parse_app0(rest) != Err::<(APP0View, int), ErrorView>(unexpected_eof()),
    ensures
        parse_app0(rest + more) == parse_app0(rest),
{
    let whole = rest + more;
    assert(whole.subrange(2, 7) =~= rest.subrange(2, 7));
    if parse_app0(rest) is Ok {
        let size = thumbnail_len(rest[14], rest[15]);
        assert(whole.subrange(16, 16 + size) =~= rest.subrange(16, 16 + size));
    }
}

/// A scan of a buffer is taken up again where it stopped: when bytes are
/// appended to a buffer whose scan stopped short of the start of scan, the
/// scan of the longer buffer from the old position is its scan from the
/// place where the first scan stopped, with the metadata it had gathered.
/// A scan that reached the start of scan or failed is not changed by the
/// bytes that follow.
pub proof fn lemma_scan_resumes(
    bytes: Seq<u8>,
    more: Seq<u8>,
    position: int,
    metadata: JPEGMetaView,
)
    ensures
        ({
            let end = scan(bytes, position, metadata);
            if end.outcome == Ok::<bool, ErrorView>(false) {
                scan(bytes + more, position, metadata) == scan(
                    bytes + more,
                    end.position,
                    end.metadata,
                )
            } else {
                scan(bytes + more, position, metadata) == end
            }
        }),
    decreases bytes.len() - position,
{
    let whole = bytes + more;
    if position < 0 || position >= bytes.len() {
    } else if bytes[position] != JPEG_SEGMENT_MARKER_START {
        lemma_scan_resumes(bytes, more, position + 1, metadata);
    } else if position + 1 >= bytes.len() {
    } else if is_fill_code(bytes[position + 1]) {
        lemma_scan_resumes(bytes, more, position + 2, metadata);
    } else if bytes[position + 1] == JPEG_SOS_CODE {
    } else if bytes[position + 1] == JPEG_APP0_CODE {
        let rest = bytes.skip(position + 2);
        assert(whole.skip(position + 2) =~= rest + more);
        match parse_app0(rest) {
            Ok((app0, used)) => {
                lemma_parse_app0_stable(rest, more);
                lemma_scan_resumes(bytes, more, position + 2 + used, JPEGMetaView { app0 });
            },
            Err(e) => {
                if e != unexpected_eof() {
                    lemma_parse_app0_stable(rest, more);
                }
            },
        }
    } else if bytes[position + 1] == JPEG_APP1_CODE {
    } else {
        lemma_scan_resumes(bytes, more, position + 2, metadata);
    }
}

/// The decoding in chunks from a state that the chunks taken in so far have
/// led to gives what the whole source holds.
proof fn lemma_chunks_from(
    bytes: Seq<u8>,
    size: int,
    fetched: int,
    position: int,
    metadata: JPEGMetaView,
)
    requires
        size >= 1,
        0 <= fetched <= bytes.len(),
        scan(bytes.take(fetched), 0, JPEGMetaView::empty()) == (ScanResult {
            outcome: Ok(false),
            position,
            metadata,
        }),
    ensures
        decoded_in_chunks(bytes, size, fetched, position, metadata) == decoded(bytes),
    decreases bytes.len() - fetched,
{
    let empty = JPEGMetaView::empty();
    let held = bytes.take(fetched);
    let next = if fetched + size < bytes.len() {
        fetched + size
    } else {
        bytes.len() as int
    };
    let chunk = bytes.subrange(fetched, next);
    assert(held + chunk =~= bytes.take(next));
    assert(bytes.take(next) + bytes.skip(next) =~= bytes);
    // The scan of what is held goes on from where it stopped.
    lemma_scan_resumes(held, chunk, 0, empty);
    if next == fetched {
        assert(held =~= bytes);
        assert(chunk =~= Seq::<u8>::empty());
        assert(held + chunk =~= held);
    } else {
        let end = scan(bytes.take(next), 0, empty);
        assert(take_chunk(held, position, metadata, chunk) == end);
        // What the longer buffer decides, the whole source decides too.
        lemma_scan_resumes(bytes.take(next), bytes.skip(next), 0, empty);
        if end.outcome == Ok::<bool, ErrorView>(false) {
            lemma_chunks_from(bytes, size, next, end.position, end.metadata);
        }
    }
}

/// The size of the chunks does not matter: a source that is fetched `size`
/// bytes at a time, whatever `size` is, gives the metadata, or the failure,
/// that the source gives when it is scanned in one piece.
pub proof fn lemma_chunk_size_is_free(bytes: Seq<u8>, size: int)
    requires
        size >= 1,
    ensures
        decoded_in_chunks(bytes, size, 0, 0, JPEGMetaView::empty()) == decoded(bytes),
{
    assert(bytes.take(0) =~= Seq::<u8>::empty());
    lemma_chunks_from(bytes, size, 0, 0, JPEGMetaView::empty());
}

/// A source that ends inside a JFIF segment fails for want of bytes: where
/// the bytes of a segment stand behind an APP0 marker with their end
/// missing, and nothing follows, the scan to the end of the source fails at
/// that marker.
pub proof fn lemma_source_cut_short(
    before: Seq<u8>,
    app0: APP0View,
    kept: int,
    metadata: JPEGMetaView,
)
    requires
        app0.is_jfif(),
        0 <= kept < encode_app0(app0).len(),
    ensures
        ({
            let bytes = before + seq![JPEG_SEGMENT_MARKER_START, JPEG_APP0_CODE] + encode_app0(
                app0,
            ).take(kept);
            scan_to_end(bytes, before.len() as int, metadata) == (ScanResult {
                outcome: Err(unexpected_eof()),
                position: before.len() as int,
                metadata,
            })
        }),
{
    let bytes = before + seq![JPEG_SEGMENT_MARKER_START, JPEG_APP0_CODE] + encode_app0(app0).take(
        kept,
    );
    let position = before.len() as int;
    lemma_truncated_app0(app0, kept);
    assert(bytes.skip(position + 2) =~= encode_app0(app0).take(kept));
    assert(bytes[position] == JPEG_SEGMENT_MARKER_START);
    assert(bytes[position + 1] == JPEG_APP0_CODE);
}

} // verus!
