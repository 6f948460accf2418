//! The JPEG marker-segment stream: the container check, the layout of the
//! JFIF application segment, and the scan of a buffer for segments.

use crate::cursor::{be_u16_value, eof_error, unexpected_eof, ByteCursor};
use crate::laws::lemma_chunk_size_is_free;
use crate::text::{decode_text, hex_byte, hex_byte_text, malformed_text};
use crate::{DecodeError, DecodeErrorKind, ErrorView};
use vstd::prelude::*;
use vstd::string::*;
use vstd::utf8::*;

verus! {

/// The byte that opens every marker.
pub const JPEG_SEGMENT_MARKER_START: u8 = 0xFF;

/// Start of image: the first two bytes of a JPEG file.
pub const JPEG_SOI_MARKER: [u8; 2] = [0xFF, 0xD8];

/// End of image: the last two bytes of a JPEG file.
pub const JPEG_EOI_MARKER: [u8; 2] = [0xFF, 0xD9];

/// The marker code of the start of scan.
pub const JPEG_SOS_CODE: u8 = 0xDA;

/// The marker code of the APP0 segment.
pub const JPEG_APP0_CODE: u8 = 0xE0;

/// The marker code of the APP1 segment.
pub const JPEG_APP1_CODE: u8 = 0xE1;

/// The identifier of a JFIF segment: the tag and its terminating zero.
pub const JFIF_IDENTIFIER: [u8; 5] = [0x4A, 0x46, 0x49, 0x46, 0];

/// The tag of a JFIF segment.
pub const JFIF_IDENTIFIER_STRING: &'static str = "JFIF";

/// The identifier of a JFXX extension segment.
pub const JFXX_IDENTIFIER: [u8; 5] = [0x4A, 0x46, 0x58, 0x58, 0];

/// The tag of a JFXX extension segment.
pub const JFXX_IDENTIFIER_STRING: &'static str = "JFXX";

/// The number of bytes fetched from a source at a time.
pub const READ_LEN: usize = 4096;

/// The JFIF application segment.
#[derive(Debug)]
pub struct APP0 {
    /// The length of the segment in bytes, the marker not counted.
    pub length: u16,
    pub identifier: [u8; 5],
    pub version_major: u8,
    pub version_minor: u8,
    /// 0: no unit, the densities give an aspect ratio; 1: pixels per inch;
    /// 3: pixels per centimeter.
    pub density_units: u8,
    pub xdensity: u16,
    pub ydensity: u16,
    /// The width of the embedded thumbnail in pixels.
    pub xthumbnail: u8,
    /// The height of the embedded thumbnail in pixels.
    pub ythumbnail: u8,
    /// The thumbnail as RGB triples, row by row.
    pub thumbnail_data: Vec<u8>,
}

/// The fields of an [`APP0`] as plain values.
pub struct APP0View {
    pub length: u16,
    pub identifier: Seq<u8>,
    pub version_major: u8,
    pub version_minor: u8,
    pub density_units: u8,
    pub xdensity: u16,
    pub ydensity: u16,
    pub xthumbnail: u8,
    pub ythumbnail: u8,
    pub thumbnail_data: Seq<u8>,
}

impl View for APP0 {
    type V = APP0View;

    open spec fn view(&self) -> APP0View {
        APP0View {
            length: self.length,
            identifier: self.identifier@,
            version_major: self.version_major,
            version_minor: self.version_minor,
            density_units: self.density_units,
            xdensity: self.xdensity,
            ydensity: self.ydensity,
            xthumbnail: self.xthumbnail,
            ythumbnail: self.ythumbnail,
            thumbnail_data: self.thumbnail_data@,
        }
    }
}

/// The identifier of a JFIF segment as a sequence of bytes.
pub open spec fn jfif_identifier() -> Seq<u8> {
    JFIF_IDENTIFIER@
}

/// Whether a byte is one of the three density units.
pub open spec fn valid_density_units(units: u8) -> bool {
    units == 0 || units == 1 || units == 3
}

/// The number of bytes of a thumbnail of the given size.
pub open spec fn thumbnail_len(xthumbnail: u8, ythumbnail: u8) -> int {
    3 * (xthumbnail as int) * (ythumbnail as int)
}

impl APP0View {
    /// The record before any segment is decoded: every field zero, no
    /// thumbnail.
    pub open spec fn empty() -> APP0View {
        APP0View {
            length: 0,
            identifier: seq![0u8, 0u8, 0u8, 0u8, 0u8],
            version_major: 0,
            version_minor: 0,
            density_units: 0,
            xdensity: 0,
            ydensity: 0,
            xthumbnail: 0,
            ythumbnail: 0,
            thumbnail_data: Seq::empty(),
        }
    }

    /// What holds of every decoded JFIF segment: the identifier is the JFIF
    /// one, the density unit is one of the three, and the thumbnail has
    /// three bytes for each of its pixels.
    pub open spec fn is_jfif(self) -> bool {
        &&& self.identifier == jfif_identifier()
        &&& valid_density_units(self.density_units)
        &&& self.thumbnail_data.len() == thumbnail_len(self.xthumbnail, self.ythumbnail)
    }

    /// What holds of the record at every point of a decoding: it is still
    /// empty, or it is a decoded JFIF segment.
    pub open spec fn well_formed(self) -> bool {
        self == APP0View::empty() || self.is_jfif()
    }
}

impl Default for APP0 {
    fn default() -> (app0: APP0)
        ensures
            app0@ == APP0View::empty(),
    {
        let app0 = APP0 {
            length: 0,
            identifier: [0, 0, 0, 0, 0],
            version_major: 0,
            version_minor: 0,
            density_units: 0,
            xdensity: 0,
            ydensity: 0,
            xthumbnail: 0,
            ythumbnail: 0,
            thumbnail_data: Vec::new(),
        };
        app0
    }
}

/// The shape of a JFXX extension segment. No segment is decoded into it.
#[derive(Debug)]
pub struct APP0Ext {
    pub length: u16,
    pub identifier: [u8; 5],
    /// How the thumbnail is stored.
    pub thumbnail_format: u8,
    pub thumbnail_data: Vec<u8>,
}

impl Default for APP0Ext {
    fn default() -> (ext: APP0Ext)
        ensures
            ext.length == 0,
            ext.identifier@ == seq![0u8, 0u8, 0u8, 0u8, 0u8],
            ext.thumbnail_format == 0,
            ext.thumbnail_data@ == Seq::<u8>::empty(),
    {
        let ext = APP0Ext {
            length: 0,
            identifier: [0, 0, 0, 0, 0],
            thumbnail_format: 0,
            thumbnail_data: Vec::new(),
        };
        ext
    }
}

/// The metadata decoded from a JPEG file.
#[derive(Debug)]
pub struct JPEGMeta {
    pub app0: APP0,
}

/// The fields of a [`JPEGMeta`] as plain values.
pub struct JPEGMetaView {
    pub app0: APP0View,
}

impl View for JPEGMeta {
    type V = JPEGMetaView;

    open spec fn view(&self) -> JPEGMetaView {
        JPEGMetaView { app0: self.app0@ }
    }
}

impl JPEGMetaView {
    /// The metadata before any segment is decoded.
    pub open spec fn empty() -> JPEGMetaView {
        JPEGMetaView { app0: APP0View::empty() }
    }

    /// What holds of the metadata at every point of a decoding: each record
    /// in it is well formed.
    pub open spec fn well_formed(self) -> bool {
        self.app0.well_formed()
    }
}

impl Default for JPEGMeta {
    fn default() -> (metadata: JPEGMeta)
        ensures
            metadata@ == JPEGMetaView::empty(),
    {
        JPEGMeta { app0: APP0::default() }
    }
}

/// The failure for a segment whose identifier is text other than the JFIF
/// tag: the reason names the tag that was expected and the text that was
/// found.
pub open spec fn wrong_identifier(identifier: Seq<u8>) -> ErrorView {
    ErrorView {
        kind: DecodeErrorKind::BadData,
        reason: "Expected identifier "@ + JFIF_IDENTIFIER_STRING@ + ", got "@ + decode_utf8(
            identifier,
        ),
    }
}

/// The reason for a density unit that is none of the three, up to the place
/// where the byte is named. It is two lines long: the values that are
/// accepted stand on the second, indented.
pub const INVALID_DENSITY_UNITS: &'static str =
    "Invalid density units value; Expected one of \n                                (0x00, 0x01, 0x03), got ";

/// The failure for a density unit that is none of the three: the reason
/// names the byte, as two hexadecimal digits.
pub open spec fn invalid_density_units(units: u8) -> ErrorView {
    ErrorView {
        kind: DecodeErrorKind::BadData,
        reason: INVALID_DENSITY_UNITS@ + hex_byte_text(units) + " instead"@,
    }
}

/// The failure for an APP1 segment, which is recognised and not decoded.
pub open spec fn unsupported_exif() -> ErrorView {
    ErrorView { kind: DecodeErrorKind::Other, reason: "EXIF decoding not implemented!"@ }
}

/// The failure for a source that is not framed as a JPEG file.
pub open spec fn not_a_jpeg(filepath: Seq<char>) -> ErrorView {
    ErrorView {
        kind: DecodeErrorKind::InvalidFormat,
        reason: "File "@ + filepath + " is not a JPEG file"@,
    }
}

/// What the bytes that follow an APP0 marker hold: the segment and the
/// number of bytes it takes, or the first failure met when the fields are
/// read in their order. `rest` is everything from the byte after the marker
/// to the end of the buffer.
///
/// The segment has sixteen bytes before its thumbnail: the length in two,
/// the identifier in five, the two parts of the version and the density
/// unit in one each, the two densities in two each, the width and the
/// height of the thumbnail in one each. 16-bit fields have the high byte
/// first.
pub open spec fn parse_app0(rest: Seq<u8>) -> Result<(APP0View, int), ErrorView> {
    let identifier = rest.subrange(2, 7);
    if rest.len() < 7 {
        Err(unexpected_eof())
    } else if !valid_utf8(identifier) {
        Err(malformed_text(identifier))
    } else if identifier != jfif_identifier() {
        Err(wrong_identifier(identifier))
    } else if rest.len() < 10 {
        Err(unexpected_eof())
    } else if !valid_density_units(rest[9]) {
        Err(invalid_density_units(rest[9]))
    } else if rest.len() < 16 || rest.len() < 16 + thumbnail_len(rest[14], rest[15]) {
        Err(unexpected_eof())
    } else {
        Ok(
            (
                APP0View {
                    length: be_u16_value(rest[0], rest[1]),
                    identifier,
                    version_major: rest[7],
                    version_minor: rest[8],
                    density_units: rest[9],
                    xdensity: be_u16_value(rest[10], rest[11]),
                    ydensity: be_u16_value(rest[12], rest[13]),
                    xthumbnail: rest[14],
                    ythumbnail: rest[15],
                    thumbnail_data: rest.subrange(16, 16 + thumbnail_len(rest[14], rest[15])),
                },
                16 + thumbnail_len(rest[14], rest[15]),
            ),
        )
    }
}

/// The JFIF identifier is text: the four letters of the tag and a NUL.
pub proof fn lemma_jfif_identifier_is_text()
    ensures
        valid_utf8(jfif_identifier()),
        decode_utf8(jfif_identifier()) == seq!['J', 'F', 'I', 'F', '\0'],
{
    let chars = seq!['J', 'F', 'I', 'F', '\0'];
    is_ascii_chars_encode_utf8(chars);
    assert(encode_utf8(chars) =~= jfif_identifier());
    encode_utf8_valid_utf8(chars);
    encode_utf8_decode_utf8(chars);
}

fn wrong_identifier_error(found: &str) -> (e: DecodeError)
    ensures
        e@ == (ErrorView {
            kind: DecodeErrorKind::BadData,
            reason: "Expected identifier "@ + JFIF_IDENTIFIER_STRING@ + ", got "@ + found@,
        }),
{
    let mut reason = String::from_str("Expected identifier ");
    reason.append(JFIF_IDENTIFIER_STRING);
    reason.append(", got ");
    reason.append(found);
    DecodeError::new(DecodeErrorKind::BadData, reason)
}

fn invalid_density_units_error(units: u8) -> (e: DecodeError)
    ensures
        e@ == invalid_density_units(units),
{
    let mut reason = String::from_str(INVALID_DENSITY_UNITS);
    let digits = hex_byte(units);
    reason.append(digits.as_str());
    reason.append(" instead");
    DecodeError::new(DecodeErrorKind::BadData, reason)
}

/// Reads the fields of a JFIF segment in their order. On a failure the
/// position is wherever the last read left it.
fn read_app0(buffer: &mut ByteCursor) -> (r: Result<APP0, DecodeError>)
    ensures
        final(buffer).bytes() == old(buffer).bytes(),
        match parse_app0(old(buffer).remaining()) {
            Ok((app0, used)) => r is Ok && r->Ok_0@ == app0 && final(buffer).spec_position()
                == old(buffer).spec_position() + used,
            Err(e) => r is Err && r->Err_0@ == e,
        },
{
    let ghost rest = buffer.remaining();
    let length = buffer.read_u16_be()?;
    let field = buffer.read_exact(5)?;
    let identifier: [u8; 5] = [field[0], field[1], field[2], field[3], field[4]];
    assert(identifier@ =~= rest.subrange(2, 7));
    let ident_string = decode_text(identifier.as_slice())?;
    if !is_jfif_identifier(&identifier) {
        return Err(wrong_identifier_error(ident_string.as_str()));
    }
    let version_major = buffer.read_u8()?;
    let version_minor = buffer.read_u8()?;
    let density_units = buffer.read_u8()?;
    if !(density_units == 0 || density_units == 1 || density_units == 3) {
        return Err(invalid_density_units_error(density_units));
    }
    let xdensity = buffer.read_u16_be()?;
    let ydensity = buffer.read_u16_be()?;
    let xthumbnail = buffer.read_u8()?;
    let ythumbnail = buffer.read_u8()?;
    assert(0 <= thumbnail_len(xthumbnail, ythumbnail) <= 195075) by (nonlinear_arith)
        requires
            xthumbnail <= 255,
            ythumbnail <= 255,
    ;
    let count: usize = 3 * (xthumbnail as usize) * (ythumbnail as usize);
    let thumbnail_data = buffer.read_exact(count)?;
    assert(thumbnail_data@ =~= rest.subrange(16, 16 + thumbnail_len(xthumbnail, ythumbnail)));
    Ok(
        APP0 {
            length,
            identifier,
            version_major,
            version_minor,
            density_units,
            xdensity,
            ydensity,
            xthumbnail,
            ythumbnail,
            thumbnail_data,
        },
    )
}

/// Whether five bytes are the JFIF identifier.
pub fn is_jfif_identifier(identifier: &[u8; 5]) -> (b: bool)
    ensures
        b == (identifier@ == jfif_identifier()),
{
    let b = identifier[0] == JFIF_IDENTIFIER[0] && identifier[1] == JFIF_IDENTIFIER[1]
        && identifier[2] == JFIF_IDENTIFIER[2] && identifier[3] == JFIF_IDENTIFIER[3]
        && identifier[4] == JFIF_IDENTIFIER[4];
    assert(b == (identifier@ =~= jfif_identifier()));
    b
}

/// Decodes the JFIF segment that starts at the position of `buffer`, which
/// is the byte after the APP0 marker, and moves past the segment, its
/// thumbnail included. The fields are read and checked in their order, and
/// the first failure is returned: an identifier that is not text or is not
/// the JFIF tag, a density unit that is none of the three, and at any field
/// the end of the buffer. On a failure the position is left where it was.
pub fn decode_app0(buffer: &mut ByteCursor) -> (r: Result<APP0, DecodeError>)
    ensures
        final(buffer).bytes() == old(buffer).bytes(),
        match parse_app0(old(buffer).remaining()) {
            Ok((app0, used)) => r is Ok && r->Ok_0@ == app0 && final(buffer).spec_position()
                == old(buffer).spec_position() + used,
            Err(e) => r is Err && r->Err_0@ == e && final(buffer).spec_position() == old(
                buffer,
            ).spec_position(),
        },
        r is Ok ==> r->Ok_0@.is_jfif() && old(buffer).remaining().len() >= 16 + thumbnail_len(
            r->Ok_0.xthumbnail,
            r->Ok_0.ythumbnail,
        ),
        ({
            let rest = old(buffer).remaining();
            let identifier = rest.subrange(2, 7);
            &&& rest.len() >= 7 && identifier != jfif_identifier() ==> r is Err
                && r->Err_0@.kind == DecodeErrorKind::BadData
            &&& rest.len() >= 7 && identifier != jfif_identifier() && valid_utf8(identifier)
                ==> r is Err && r->Err_0@.reason == "Expected identifier "@ + "JFIF"@ + ", got "@
                + decode_utf8(identifier)
            &&& rest.len() >= 10 && identifier == jfif_identifier() && !valid_density_units(
                rest[9],
            ) ==> r is Err && r->Err_0@.kind == DecodeErrorKind::BadData && r->Err_0@.reason
                == INVALID_DENSITY_UNITS@ + hex_byte_text(rest[9]) + " instead"@
        }),
{
    proof {
        lemma_jfif_identifier_is_text();
    }
    let start = buffer.position();
    let r = read_app0(buffer);
    if r.is_err() {
        buffer.set_position(start);
    }
    r
}

/// Whether a byte behind a marker start is fill and no marker code: `00`,
/// which stuffs a data byte `FF`, and `FF`, which pads before a marker.
pub open spec fn is_fill_code(code: u8) -> bool {
    code == 0x00 || code == 0xFF
}

/// How a scan of a buffer ends.
pub struct ScanResult {
    /// Whether the start of scan was reached, or the failure that ended
    /// the scan.
    pub outcome: Result<bool, ErrorView>,
    /// The position at which the scan stopped.
    pub position: int,
    /// The metadata gathered up to there.
    pub metadata: JPEGMetaView,
}

/// The scan for markers of a buffer that may yet grow, from `position` on,
/// carrying `metadata`.
///
/// A byte other than the marker start is passed over. After a marker start
/// the next byte is the marker code. A fill code is no marker: it is passed
/// over with the marker start before it. The start of scan ends the scan,
/// an APP0 code is followed by a JFIF segment that replaces the one in the
/// metadata, an APP1 code is a failure, and any other code is passed over.
///
/// Where the buffer ends, the scan stops short of the start of scan and can
/// be taken up again when the buffer has grown. Where it ends inside a
/// marker or a segment, the scan stops at the marker start, so that the
/// marker is read again, whole.
pub open spec fn scan(bytes: Seq<u8>, position: int, metadata: JPEGMetaView) -> ScanResult
    decreases bytes.len() - position,
{
    if position < 0 || position >= bytes.len() {
        ScanResult { outcome: Ok(false), position, metadata }
    } else if bytes[position] != JPEG_SEGMENT_MARKER_START {
        scan(bytes, position + 1, metadata)
    } else if position + 1 >= bytes.len() {
        ScanResult { outcome: Ok(false), position, metadata }
    } else if is_fill_code(bytes[position + 1]) {
        scan(bytes, position + 2, metadata)
    } else if bytes[position + 1] == JPEG_SOS_CODE {
        ScanResult { outcome: Ok(true), position: position + 2, metadata }
    } else if bytes[position + 1] == JPEG_APP0_CODE {
        match parse_app0(bytes.skip(position + 2)) {
            Ok((app0, used)) => scan(bytes, position + 2 + used, JPEGMetaView { app0 }),
            Err(e) => if e == unexpected_eof() {
                ScanResult { outcome: Ok(false), position, metadata }
            } else {
                ScanResult { outcome: Err(e), position: position + 2, metadata }
            },
        }
    } else if bytes[position + 1] == JPEG_APP1_CODE {
        ScanResult { outcome: Err(unsupported_exif()), position: position + 2, metadata }
    } else {
        scan(bytes, position + 2, metadata)
    }
}

/// The scan of a source that has ended and is all in `bytes`. It is the
/// scan of a buffer, but for a marker or segment that the end of the source
/// cuts short: no more bytes will come, and that is a failure. A source
/// that ends between markers without a start of scan is none.
pub open spec fn scan_to_end(bytes: Seq<u8>, position: int, metadata: JPEGMetaView) -> ScanResult {
    let end = scan(bytes, position, metadata);
    if end.outcome == Ok::<bool, ErrorView>(false) && 0 <= end.position < bytes.len() {
        ScanResult {
            outcome: Err(unexpected_eof()),
            position: end.position,
            metadata: end.metadata,
        }
    } else {
        end
    }
}

fn unsupported_exif_error() -> (e: DecodeError)
    ensures
        e@ == unsupported_exif(),
{
    DecodeError::new(DecodeErrorKind::Other, String::from_str("EXIF decoding not implemented!"))
}

/// Scans `buffer` for markers from its position on and decodes the
/// segments it finds into `metadata`, as [`scan`] says. It returns whether
/// the start of scan was reached. Where the buffer ends first the answer is
/// `false`, and the position is left where the scan goes on once more bytes
/// are appended: at the end of the buffer, or at the start of the marker
/// that the buffer cuts short. The position never ends before the place it
/// started from; on a failure `metadata` holds the last segment that was
/// decoded whole.
pub fn decode_segments_from_buffer(buffer: &mut ByteCursor, metadata: &mut JPEGMeta) -> (r:
    Result<bool, DecodeError>)
    ensures
        final(buffer).bytes() == old(buffer).bytes(),
        final(buffer).spec_position() >= old(buffer).spec_position(),
        ({
            let end = scan(old(buffer).bytes(), old(buffer).spec_position() as int, old(metadata)@);
            &&& final(buffer).spec_position() == end.position
            &&& final(metadata)@ == end.metadata
            &&& match end.outcome {
                Ok(reached) => r == Ok::<bool, DecodeError>(reached),
                Err(e) => r is Err && r->Err_0@ == e,
            }
        }),
        old(metadata)@.well_formed() ==> final(metadata)@.well_formed(),
{
    loop
        invariant
            buffer.bytes() == old(buffer).bytes(),
            buffer.spec_position() >= old(buffer).spec_position(),
            old(metadata)@.well_formed() ==> metadata@.well_formed(),
            scan(buffer.bytes(), buffer.spec_position() as int, metadata@) == scan(
                old(buffer).bytes(),
                old(buffer).spec_position() as int,
                old(metadata)@,
            ),
        decreases buffer.bytes().len() - buffer.spec_position(),
    {
        let marker_start = buffer.position();
        let start = match buffer.read_u8() {
            Ok(byte) => byte,
            Err(_) => return Ok(false),
        };
        if start != JPEG_SEGMENT_MARKER_START {
            continue ;
        }
        let marker = match buffer.read_u8() {
            Ok(byte) => byte,
            Err(_) => {
                buffer.set_position(marker_start);
                return Ok(false);
            },
        };
        if marker == 0x00 || marker == 0xFF {
            continue ;
        }
        if marker == JPEG_SOS_CODE {
            return Ok(true);
        } else if marker == JPEG_APP0_CODE {
            match decode_app0(buffer) {
                Ok(app0) => {
                    metadata.app0 = app0;
                },
                Err(e) => {
                    // Of the failures of a segment only the end of the
                    // buffer is of class `Other`.
                    if e.kind() == DecodeErrorKind::Other {
                        buffer.set_position(marker_start);
                        return Ok(false);
                    }
                    return Err(e);
                },
            }
        } else if marker == JPEG_APP1_CODE {
            return Err(unsupported_exif_error());
        }
    }
}

/// Whether the bytes begin with the start-of-image marker.
pub open spec fn starts_with_soi(bytes: Seq<u8>) -> bool {
    bytes.len() >= 2 && bytes.take(2) == JPEG_SOI_MARKER@
}

/// Whether the bytes end with the end-of-image marker.
pub open spec fn ends_with_eoi(bytes: Seq<u8>) -> bool {
    bytes.len() >= 2 && bytes.skip(bytes.len() - 2) == JPEG_EOI_MARKER@
}

/// Whether the bytes are framed as a JPEG file: they begin with the
/// start-of-image marker and end with the end-of-image marker.
pub open spec fn is_jpeg(bytes: Seq<u8>) -> bool {
    starts_with_soi(bytes) && ends_with_eoi(bytes)
}

/// Where [`is_jpeg_file`] leaves the position: at the start when the source
/// is a JPEG file or is too short to tell, else behind the marker that did
/// not match.
pub open spec fn position_after_check(bytes: Seq<u8>) -> int {
    if bytes.len() < 2 || is_jpeg(bytes) {
        0
    } else if !starts_with_soi(bytes) {
        2
    } else {
        bytes.len() as int
    }
}

/// Whether the bytes are the start-of-image marker.
pub fn is_soi_marker(head: &[u8]) -> (b: bool)
    ensures
        b == (head@ == JPEG_SOI_MARKER@),
{
    let b = head.len() == 2 && head[0] == JPEG_SOI_MARKER[0] && head[1] == JPEG_SOI_MARKER[1];
    assert(b == (head@ =~= JPEG_SOI_MARKER@));
    b
}

/// Whether the bytes are the end-of-image marker.
pub fn is_eoi_marker(tail: &[u8]) -> (b: bool)
    ensures
        b == (tail@ == JPEG_EOI_MARKER@),
{
    let b = tail.len() == 2 && tail[0] == JPEG_EOI_MARKER[0] && tail[1] == JPEG_EOI_MARKER[1];
    assert(b == (tail@ =~= JPEG_EOI_MARKER@));
    b
}

/// Tells whether `source` holds a JPEG file, by its first two and its last
/// two bytes; what lies between is not looked at. A source that is not
/// framed as a JPEG file is an ordinary `false`. A source of fewer than two
/// bytes cannot be read and is a failure. Wherever the position was, it is
/// at the start again when the answer is `true`.
pub fn is_jpeg_file(source: &mut ByteCursor) -> (r: Result<bool, DecodeError>)
    ensures
        final(source).bytes() == old(source).bytes(),
        final(source).spec_position() == position_after_check(old(source).bytes()),
        old(source).bytes().len() >= 2 ==> r == Ok::<bool, DecodeError>(
            is_jpeg(old(source).bytes()),
        ),
        old(source).bytes().len() < 2 ==> r is Err && r->Err_0@ == unexpected_eof(),
        r == Ok::<bool, DecodeError>(true) ==> final(source).spec_position() == 0,
{
    source.set_position(0);
    let head = source.read_exact(2)?;
    assert(head@ =~= source.bytes().take(2));
    if !is_soi_marker(head.as_slice()) {
        return Ok(false);
    }
    let len = source.len();
    source.set_position(len - 2);
    let tail = source.read_exact(2)?;
    assert(tail@ =~= source.bytes().skip(len - 2));
    if !is_eoi_marker(tail.as_slice()) {
        return Ok(false);
    }
    source.set_position(0);
    Ok(true)
}

/// The metadata that a source which has ended holds, or the failure of its
/// decoding: the source is scanned from its first byte to its end.
pub open spec fn decoded(bytes: Seq<u8>) -> Result<JPEGMetaView, ErrorView> {
    let end = scan_to_end(bytes, 0, JPEGMetaView::empty());
    match end.outcome {
        Ok(_) => Ok(end.metadata),
        Err(e) => Err(e),
    }
}

/// The metadata of the file that holds `bytes`, or the failure of its
/// decoding. A file of fewer than two bytes cannot be checked; a file that
/// is not framed as a JPEG file is refused under its name; any other is
/// scanned from its start, and the metadata gathered is the result whether
/// or not the start of scan was reached.
pub open spec fn metadata_of(filepath: Seq<char>, bytes: Seq<u8>) -> Result<
    JPEGMetaView,
    ErrorView,
> {
    if bytes.len() < 2 {
        Err(unexpected_eof())
    } else if !is_jpeg(bytes) {
        Err(not_a_jpeg(filepath))
    } else {
        decoded(bytes)
    }
}

/// What taking in one chunk does to a decoding that holds `bytes` and
/// stands at `position` with `metadata`, and whether the decoding is over.
///
/// A chunk with bytes in it is appended and the buffer is scanned from the
/// position on. The empty chunk says that the source has ended: what is
/// left in the buffer is scanned to the end, and the decoding is over.
pub open spec fn take_chunk(
    bytes: Seq<u8>,
    position: int,
    metadata: JPEGMetaView,
    chunk: Seq<u8>,
) -> ScanResult {
    if chunk.len() > 0 {
        scan(bytes + chunk, position, metadata)
    } else {
        let end = scan_to_end(bytes, position, metadata);
        match end.outcome {
            Ok(_) => ScanResult { outcome: Ok(true), position: end.position, metadata: end.metadata },
            Err(_) => end,
        }
    }
}

/// What a source gives when it is fetched `size` bytes at a time: each
/// chunk is taken in as [`take_chunk`] says, until the decoding is over.
/// `fetched` bytes have been taken in so far, and the decoding stands at
/// `position` with `metadata`.
pub open spec fn decoded_in_chunks(
    bytes: Seq<u8>,
    size: int,
    fetched: int,
    position: int,
    metadata: JPEGMetaView,
) -> Result<JPEGMetaView, ErrorView>
    decreases bytes.len() - fetched,
{
    if size < 1 || fetched < 0 || fetched > bytes.len() {
        Err(unexpected_eof())
    } else {
        let next = if fetched + size < bytes.len() {
            fetched + size
        } else {
            bytes.len() as int
        };
        let end = take_chunk(bytes.take(fetched), position, metadata, bytes.subrange(fetched, next));
        match end.outcome {
            Err(e) => Err(e),
            Ok(over) => if over {
                Ok(end.metadata)
            } else {
                decoded_in_chunks(bytes, size, next, end.position, end.metadata)
            },
        }
    }
}

/// The failure for a source that is not framed as a JPEG file; `filepath`
/// names the source.
pub fn not_a_jpeg_error(filepath: &str) -> (e: DecodeError)
    ensures
        e@ == not_a_jpeg(filepath@),
{
    let mut reason = String::from_str("File ");
    reason.append(filepath);
    reason.append(" is not a JPEG file");
    DecodeError::new(DecodeErrorKind::InvalidFormat, reason)
}

/// Takes in what one fetch from the source brought, as [`take_chunk`]
/// says, and tells whether the decoding is over.
///
/// A chunk with bytes in it is appended to `buffer`, which is then scanned
/// from its position on with [`decode_segments_from_buffer`]: the decoding
/// is over when the start of scan is reached, and else wants the next
/// chunk, the more so where the buffer ends inside a marker or a segment.
/// The empty chunk says that the source has ended: the decoding is over,
/// and it fails if the source ends inside a marker or a segment.
pub fn decode_chunk(buffer: &mut ByteCursor, metadata: &mut JPEGMeta, chunk: &[u8]) -> (r: Result<
    bool,
    DecodeError,
>)
    ensures
        final(buffer).bytes() == old(buffer).bytes() + chunk@,
        final(buffer).spec_position() >= old(buffer).spec_position(),
        ({
            let end = take_chunk(
                old(buffer).bytes(),
                old(buffer).spec_position() as int,
                old(metadata)@,
                chunk@,
            );
            &&& final(buffer).spec_position() == end.position
            &&& final(metadata)@ == end.metadata
            &&& match end.outcome {
                Ok(over) => r == Ok::<bool, DecodeError>(over),
                Err(e) => r is Err && r->Err_0@ == e,
            }
        }),
        chunk@.len() == 0 ==> r != Ok::<bool, DecodeError>(false),
        old(metadata)@.well_formed() ==> final(metadata)@.well_formed(),
{
    buffer.extend_from_slice(chunk);
    assert(chunk@.len() == 0 ==> buffer.bytes() =~= old(buffer).bytes());
    let reached = decode_segments_from_buffer(buffer, metadata)?;
    if chunk.len() > 0 {
        return Ok(reached);
    }
    if !reached && buffer.position() < buffer.len() {
        return Err(eof_error());
    }
    Ok(true)
}

/// Extracts the metadata of the JPEG file that holds `data`; `filepath`
/// names the file in the failure for a source that is not a JPEG file.
///
/// The file is checked with [`is_jpeg_file`] and then fetched in chunks of
/// [`READ_LEN`] bytes, each of which is taken in with [`decode_chunk`],
/// until the start of scan is reached or the file ends. The result is
/// [`metadata_of`]: it is the same wherever the chunks end.
pub fn extract_metadata(filepath: &str, data: Vec<u8>) -> (r: Result<JPEGMeta, DecodeError>)
    ensures
        match metadata_of(filepath@, data@) {
            Ok(metadata) => r is Ok && r->Ok_0@ == metadata,
            Err(e) => r is Err && r->Err_0@ == e,
        },
        data@.len() >= 2 && !is_jpeg(data@) ==> r is Err && r->Err_0@.kind
            == DecodeErrorKind::InvalidFormat && r->Err_0@.reason == "File "@ + filepath@
            + " is not a JPEG file"@,
        r is Ok ==> r->Ok_0@.well_formed(),
{
    let ghost bytes = data@;
    let mut file = ByteCursor::new(data);
    if !is_jpeg_file(&mut file)? {
        return Err(not_a_jpeg_error(filepath));
    }
    let mut buffer = ByteCursor::new(Vec::with_capacity(READ_LEN));
    let mut metadata = JPEGMeta::default();
    let mut done = false;
    proof {
        lemma_chunk_size_is_free(bytes, READ_LEN as int);
    }
    while !done
        invariant
            bytes == data@,
            bytes.len() >= 2,
            is_jpeg(bytes),
            file.bytes() == bytes,
            file.spec_position() <= bytes.len(),
            buffer.bytes() == bytes.take(file.spec_position() as int),
            metadata@.well_formed(),
            !done ==> decoded_in_chunks(
                bytes,
                READ_LEN as int,
                file.spec_position() as int,
                buffer.spec_position() as int,
                metadata@,
            ) == decoded(bytes),
            done ==> decoded(bytes) == Ok::<JPEGMetaView, ErrorView>(metadata@),
        decreases
                bytes.len() - file.spec_position(),
                if done {
                    0int
                } else {
                    1int
                },
    {
        let ghost fetched = file.spec_position() as int;
        let chunk = file.read_chunk(READ_LEN);
        assert(chunk@ =~= bytes.subrange(fetched, file.spec_position() as int));
        assert(bytes.take(fetched) + chunk@ =~= bytes.take(file.spec_position() as int));
        done = decode_chunk(&mut buffer, &mut metadata, chunk.as_slice())?;
    }
    Ok(metadata)
}

} // verus!
