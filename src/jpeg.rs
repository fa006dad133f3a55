//! Decoding of the marker segments at the head of a JPEG byte stream.
//!
//! A stream is a run of segments. Each starts with a two-byte tag `0xFF, code`. The
//! image start and image end markers stop there; every other known marker is followed
//! by a big-endian length that counts itself and the payload after it. A scan start is
//! followed by entropy-coded data, in which a literal `0xFF` byte is written as
//! `0xFF, 0x00`, up to the next real marker.
use vstd::prelude::*;
use vstd::slice::slice_subrange;

verus! {

/// The lead byte of every marker.
pub const MARKER: u8 = 0xFF;

/// Start of image.
pub const SOI: u8 = 0xD8;

/// End of image.
pub const EOI: u8 = 0xD9;

/// Application segment 0 (JFIF header).
pub const APP0: u8 = 0xE0;

/// Start of frame, baseline DCT.
pub const SOF0: u8 = 0xC0;

/// Start of frame, progressive DCT.
pub const SOF2: u8 = 0xC2;

/// Define Huffman table.
pub const DHT: u8 = 0xC4;

/// Define quantization table.
pub const DQT: u8 = 0xDB;

/// Start of scan.
pub const SOS: u8 = 0xDA;

/// Comment.
pub const COM: u8 = 0xFE;

/// Smallest length of an application segment: the length field and the fourteen bytes
/// of its fixed fields.
pub const APP0_MIN_LENGTH: u16 = 16;

/// Smallest length of a frame header: the length field and six bytes of fields.
pub const FRAME_MIN_LENGTH: u16 = 8;

/// Smallest length of any length-prefixed segment: the length field alone.
pub const LENGTH_FIELD_SIZE: u16 = 2;

/// How many segments `scan` decodes at most.
pub const MAX_SEGMENTS: usize = 32;

/// Why a byte stream could not be decoded into segments.
#[derive(Debug, Clone, Copy, PartialEq, Eq, Structural)]
pub enum JpegParseSegmentsError {
    /// Fewer bytes remain than the current read requires.
    UnexpectedEof,
    /// A length-prefixed segment declares a length below what its fields need.
    InvalidSegmentSize { expected: u16, actual: u16 },
    /// The identifier at the start of an application segment is not `JFIF\0`.
    InvalidIdentifier,
    /// A tag that this decoder does not know; its layout cannot be skipped.
    UnhandledSegment(u8, u8),
}

/// Why a stream does not open with the image start marker.
#[derive(Debug, Clone, Copy, PartialEq, Eq, Structural)]
pub enum SoiError {
    /// The first two bytes are not `0xFF, 0xD8`.
    InvalidSoi,
    /// The stream is shorter than two bytes.
    UnexpectedEof,
}

/// How the densities of an application segment are measured.
#[derive(Debug, Clone, Copy, PartialEq, Eq, Structural)]
pub enum DensityUnit {
    NoUnits,
    DotsPerInch,
    DotsPerCm,
}

/// The fixed fields of a JFIF application segment.
#[derive(Debug, Clone, Copy, PartialEq, Eq, Structural)]
pub struct App0 {
    pub major_revision_number: u8,
    pub minor_revision_number: u8,
    pub units_for_density: u8,
    pub x_density: u16,
    pub y_density: u16,
    pub thumbnail_width: u8,
    pub thumbnail_height: u8,
}

/// The leading fields of a start-of-frame segment.
#[derive(Debug, Clone, Copy, PartialEq, Eq, Structural)]
pub struct Frame {
    pub data_precision: u8,
    pub image_height: u16,
    pub image_width: u16,
    pub components: u8,
}

/// One decoded segment.
#[derive(Debug, Clone, PartialEq, Eq)]
pub enum Segment {
    StartOfImage,
    Application(App0),
    /// A frame header; the number is 0 for baseline and 2 for progressive frames.
    FrameHeader(u8, Frame),
    Comment(String),
    QuantizationTable,
    HuffmanTable,
    ScanStart,
    EndOfImage,
}

/// A segment as a mathematical value.
pub enum SegmentView {
    StartOfImage,
    Application(App0),
    FrameHeader(u8, Frame),
    Comment(Seq<char>),
    QuantizationTable,
    HuffmanTable,
    ScanStart,
    EndOfImage,
}

impl View for Segment {
    type V = SegmentView;

    open spec fn view(&self) -> SegmentView {
        match self {
            Segment::StartOfImage => SegmentView::StartOfImage,
            Segment::Application(a) => SegmentView::Application(*a),
            Segment::FrameHeader(k, f) => SegmentView::FrameHeader(*k, *f),
            Segment::Comment(s) => SegmentView::Comment(s@),
            Segment::QuantizationTable => SegmentView::QuantizationTable,
            Segment::HuffmanTable => SegmentView::HuffmanTable,
            Segment::ScanStart => SegmentView::ScanStart,
            Segment::EndOfImage => SegmentView::EndOfImage,
        }
    }
}

/// The segments found by a scan, and how many bytes of the input they took.
#[derive(Debug, Clone, PartialEq, Eq)]
pub struct ScanResult {
    pub segments: Vec<Segment>,
    pub consumed: usize,
}

impl App0 {
    /// The unit of the densities, or an error for a code other than 0, 1 or 2.
    pub fn get_density_unit(&self) -> (r: Result<DensityUnit, &'static str>)
        ensures
            self.units_for_density == 0 <==> r == Ok::<DensityUnit, &'static str>(DensityUnit::NoUnits),
            self.units_for_density == 1 <==> r == Ok::<DensityUnit, &'static str>(DensityUnit::DotsPerInch),
            self.units_for_density == 2 <==> r == Ok::<DensityUnit, &'static str>(DensityUnit::DotsPerCm),
            self.units_for_density > 2 ==> r == Err::<DensityUnit, &'static str>(
                "Unknown density unit",
            ),
    {
        proof {
            reveal_strlit("Unknown density unit");
        }
        match self.units_for_density {
            0 => Ok(DensityUnit::NoUnits),
            1 => Ok(DensityUnit::DotsPerInch),
            2 => Ok(DensityUnit::DotsPerCm),
            _ => Err("Unknown density unit"),
        }
    }
}

/// The first two bytes of `content`, as a tag.
pub fn take_segment_id(content: &[u8]) -> (r: Result<(u8, u8), JpegParseSegmentsError>)
    ensures
        content@.len() >= 2 ==> r == Ok::<(u8, u8), JpegParseSegmentsError>(
            (content@[0], content@[1]),
        ),
        content@.len() < 2 ==> r == Err::<(u8, u8), JpegParseSegmentsError>(
            JpegParseSegmentsError::UnexpectedEof,
        ),
{
    let mut cursor = ByteCursor::new(content);
    cursor.read_tag()
}

/// Whether `content` opens with the image start marker; an error where it is shorter
/// than two bytes.
pub fn take_soi(content: &[u8]) -> (r: Result<bool, JpegParseSegmentsError>)
    ensures
        content@.len() >= 2 ==> r == Ok::<bool, JpegParseSegmentsError>(
            content@[0] == MARKER && content@[1] == SOI,
        ),
        content@.len() < 2 ==> r == Err::<bool, JpegParseSegmentsError>(
            JpegParseSegmentsError::UnexpectedEof,
        ),
{
    match take_segment_id(content) {
        Ok((lead, code)) => Ok(lead == MARKER && code == SOI),
        Err(e) => Err(e),
    }
}

/// The image start marker that opens `content`, or why there is none.
pub fn take_soi_2(content: &[u8]) -> (r: Result<(u8, u8), SoiError>)
    ensures
        content@.len() < 2 ==> r == Err::<(u8, u8), SoiError>(SoiError::UnexpectedEof),
        content@.len() >= 2 && content@[0] == MARKER && content@[1] == SOI ==> r == Ok::<
            (u8, u8),
            SoiError,
        >((MARKER, SOI)),
        content@.len() >= 2 && !(content@[0] == MARKER && content@[1] == SOI) ==> r == Err::<
            (u8, u8),
            SoiError,
        >(SoiError::InvalidSoi),
{
    if content.len() < 2 {
        return Err(SoiError::UnexpectedEof);
    }
    if content[0] == MARKER && content[1] == SOI {
        Ok((content[0], content[1]))
    } else {
        Err(SoiError::InvalidSoi)
    }
}

/// The text that `String::from_utf8_lossy` makes of some bytes.
pub uninterp spec fn lossy_text(b: Seq<u8>) -> Seq<char>;

/// Relies on `String::from_utf8_lossy`: the text it returns depends on the bytes alone.
#[verifier::external_body]
fn utf8_lossy(b: &[u8]) -> (r: String)
    ensures
        r@ == lossy_text(b@),
{
    String::from_utf8_lossy(b).into_owned()
}

/// The big-endian 16-bit number held by `buf[i]` and `buf[i + 1]`.
pub open spec fn be16_at(buf: Seq<u8>, i: int) -> u16 {
    (buf[i] as int * 256 + buf[i + 1] as int) as u16
}

/// Whether the marker code `code` is followed by a length field.
pub open spec fn has_length_field(code: u8) -> bool {
    code == APP0 || code == SOF0 || code == SOF2 || code == DHT || code == DQT || code == SOS
        || code == COM
}

/// The smallest length that a segment with marker code `code` may declare.
pub open spec fn min_length(code: u8) -> u16 {
    if code == APP0 {
        APP0_MIN_LENGTH
    } else if code == SOF0 || code == SOF2 {
        FRAME_MIN_LENGTH
    } else {
        LENGTH_FIELD_SIZE
    }
}

/// Whether `buf` holds the identifier `JFIF\0` from index `i` on.
pub open spec fn is_jfif_at(buf: Seq<u8>, i: int) -> bool {
    buf[i] == 0x4A && buf[i + 1] == 0x46 && buf[i + 2] == 0x49 && buf[i + 3] == 0x46 && buf[i
        + 4] == 0
}

/// The application fields in the payload that starts at `i`.
pub open spec fn app0_at(buf: Seq<u8>, i: int) -> App0 {
    App0 {
        major_revision_number: buf[i + 5],
        minor_revision_number: buf[i + 6],
        units_for_density: buf[i + 7],
        x_density: be16_at(buf, i + 8),
        y_density: be16_at(buf, i + 10),
        thumbnail_width: buf[i + 12],
        thumbnail_height: buf[i + 13],
    }
}

/// How many bytes of RGB thumbnail follow an application segment.
pub open spec fn thumbnail_size(a: App0) -> int {
    a.thumbnail_width as int * a.thumbnail_height as int * 3
}

/// The frame fields in the payload that starts at `i`.
pub open spec fn frame_at(buf: Seq<u8>, i: int) -> Frame {
    Frame {
        data_precision: buf[i],
        image_height: be16_at(buf, i + 1),
        image_width: be16_at(buf, i + 3),
        components: buf[i + 5],
    }
}

/// Where the entropy-coded data that starts at `p` ends: the index of the first
/// `0xFF` that is not followed by a `0x00` filler byte. Each `0xFF, 0x00` pair is data.
pub open spec fn data_end(buf: Seq<u8>, p: int) -> Result<int, JpegParseSegmentsError>
    decreases buf.len() - p,
{
    if p >= buf.len() {
        Err(JpegParseSegmentsError::UnexpectedEof)
    } else if buf[p] != MARKER {
        data_end(buf, p + 1)
    } else if p + 1 >= buf.len() {
        Err(JpegParseSegmentsError::UnexpectedEof)
    } else if buf[p + 1] == 0 {
        data_end(buf, p + 2)
    } else {
        Ok(p)
    }
}

/// The segment whose payload lies in `buf[start..end]` (the length field excluded),
/// and where the next segment starts.
pub open spec fn payload_at(buf: Seq<u8>, code: u8, start: int, end: int) -> Result<
    (SegmentView, int),
    JpegParseSegmentsError,
> {
    if code == APP0 {
        if !is_jfif_at(buf, start) {
            Err(JpegParseSegmentsError::InvalidIdentifier)
        } else if end + thumbnail_size(app0_at(buf, start)) > buf.len() {
            Err(JpegParseSegmentsError::UnexpectedEof)
        } else {
            Ok(
                (
                    SegmentView::Application(app0_at(buf, start)),
                    end + thumbnail_size(app0_at(buf, start)),
                ),
            )
        }
    } else if code == SOF0 || code == SOF2 {
        Ok((SegmentView::FrameHeader((code - SOF0) as u8, frame_at(buf, start)), end))
    } else if code == COM {
        Ok((SegmentView::Comment(lossy_text(buf.subrange(start, end))), end))
    } else if code == DQT {
        Ok((SegmentView::QuantizationTable, end))
    } else if code == DHT {
        Ok((SegmentView::HuffmanTable, end))
    } else {
        match data_end(buf, end) {
            Ok(e) => Ok((SegmentView::ScanStart, e)),
            Err(err) => Err(err),
        }
    }
}

/// The segment with tag `tag` whose body starts at `pos`, and where the next one starts.
pub open spec fn decode_at(buf: Seq<u8>, tag: (u8, u8), pos: int) -> Result<
    (SegmentView, int),
    JpegParseSegmentsError,
> {
    if tag.0 != MARKER {
        Err(JpegParseSegmentsError::UnhandledSegment(tag.0, tag.1))
    } else if tag.1 == SOI {
        Ok((SegmentView::StartOfImage, pos))
    } else if tag.1 == EOI {
        Ok((SegmentView::EndOfImage, pos))
    } else if !has_length_field(tag.1) {
        Err(JpegParseSegmentsError::UnhandledSegment(tag.0, tag.1))
    } else if pos + 2 > buf.len() {
        Err(JpegParseSegmentsError::UnexpectedEof)
    } else if be16_at(buf, pos) < min_length(tag.1) {
        Err(
            JpegParseSegmentsError::InvalidSegmentSize {
                expected: min_length(tag.1),
                actual: be16_at(buf, pos),
            },
        )
    } else if pos + be16_at(buf, pos) > buf.len() {
        Err(JpegParseSegmentsError::UnexpectedEof)
    } else {
        payload_at(buf, tag.1, pos + 2, pos + be16_at(buf, pos))
    }
}

/// The segment whose tag starts at `pos`, and where the next one starts.
pub open spec fn segment_at(buf: Seq<u8>, pos: int) -> Result<
    (SegmentView, int),
    JpegParseSegmentsError,
> {
    if pos + 2 > buf.len() {
        Err(JpegParseSegmentsError::UnexpectedEof)
    } else {
        decode_at(buf, (buf[pos], buf[pos + 1]), pos + 2)
    }
}

/// Scanning from `pos` with room for `budget` more segments, after `found`: the
/// segments and where the scan stopped. It stops at the end of the input, after an
/// image end marker, or when the budget is spent; the first error ends it.
pub open spec fn scan_from(buf: Seq<u8>, pos: int, budget: nat, found: Seq<SegmentView>) -> Result<
    (Seq<SegmentView>, int),
    JpegParseSegmentsError,
>
    decreases budget,
{
    if budget == 0 || pos >= buf.len() {
        Ok((found, pos))
    } else {
        match segment_at(buf, pos) {
            Err(e) => Err(e),
            Ok((s, next)) => {
                if s is EndOfImage {
                    Ok((found.push(s), next))
                } else {
                    scan_from(buf, next, (budget - 1) as nat, found.push(s))
                }
            },
        }
    }
}

/// The result of scanning `buf` for at most `limit` segments.
pub open spec fn scan_spec(buf: Seq<u8>, limit: nat) -> Result<
    (Seq<SegmentView>, int),
    JpegParseSegmentsError,
> {
    scan_from(buf, 0, limit, Seq::empty())
}

/// The views of a sequence of segments.
pub open spec fn views(segs: Seq<Segment>) -> Seq<SegmentView> {
    segs.map_values(|s: Segment| s@)
}

/// An executable outcome, with the position it left, as the spec functions state it.
pub open spec fn outcome(r: Result<Segment, JpegParseSegmentsError>, pos: usize) -> Result<
    (SegmentView, int),
    JpegParseSegmentsError,
> {
    match r {
        Ok(s) => Ok((s@, pos as int)),
        Err(e) => Err(e),
    }
}

/// The end of entropy-coded data lies at or after where it starts, on a byte of the input.
pub proof fn lemma_data_end_bounds(buf: Seq<u8>, p: int)
    requires
        0 <= p,
    ensures
        data_end(buf, p) matches Ok(e) ==> p <= e < buf.len(),
    decreases buf.len() - p,
{
    if p < buf.len() {
        if buf[p] != MARKER {
            lemma_data_end_bounds(buf, p + 1);
        } else if p + 1 < buf.len() && buf[p + 1] == 0 {
            lemma_data_end_bounds(buf, p + 2);
        }
    }
}

/// Where the entropy-coded data that starts at `from` ends: the index of the first
/// `0xFF` not followed by a `0x00` filler byte. Fails where the data runs to the end.
pub fn find_data_end(buf: &[u8], from: usize) -> (r: Result<usize, JpegParseSegmentsError>)
    requires
        from <= buf@.len(),
    ensures
        match data_end(buf@, from as int) {
            Ok(e) => r is Ok && r->Ok_0 == e && from <= e < buf@.len(),
            Err(err) => r == Err::<usize, JpegParseSegmentsError>(err),
        },
{
    proof {
        lemma_data_end_bounds(buf@, from as int);
    }
    let len = buf.len();
    let mut i = from;
    while i < len
        invariant
            from <= i <= len,
            len == buf@.len(),
            data_end(buf@, from as int) == data_end(buf@, i as int),
        decreases len - i,
    {
        if buf[i] != MARKER {
            i = i + 1;
        } else if i + 1 >= len {
            return Err(JpegParseSegmentsError::UnexpectedEof);
        } else if buf[i + 1] == 0 {
            i = i + 2;
        } else {
            return Ok(i);
        }
    }
    Err(JpegParseSegmentsError::UnexpectedEof)
}

/// The result of a scan as the spec functions state it: the segments' views and how
/// many bytes they took, or the error.
pub open spec fn scan_outcome(r: Result<ScanResult, JpegParseSegmentsError>) -> Result<
    (Seq<SegmentView>, int),
    JpegParseSegmentsError,
> {
    match r {
        Ok(res) => Ok((views(res.segments@), res.consumed as int)),
        Err(e) => Err(e),
    }
}

/// A read position into a borrowed byte buffer.
pub struct ByteCursor<'a> {
    pub buf: &'a [u8],
    pub pos: usize,
}

impl<'a> ByteCursor<'a> {
    pub open spec fn wf(&self) -> bool {
        self.pos <= self.buf@.len()
    }

    /// A cursor at the start of `buf`.
    pub fn new(buf: &'a [u8]) -> (r: Self)
        ensures
            r.buf@ == buf@,
            r.pos == 0,
    {
        ByteCursor { buf, pos: 0 }
    }

    /// Reads a two-byte tag.
    pub fn read_tag(&mut self) -> (r: Result<(u8, u8), JpegParseSegmentsError>)
        requires
            old(self).wf(),
        ensures
            final(self).buf@ == old(self).buf@,
            final(self).wf(),
            old(self).pos + 2 <= old(self).buf@.len() ==> r == Ok::<
                (u8, u8),
                JpegParseSegmentsError,
            >((old(self).buf@[old(self).pos as int], old(self).buf@[old(self).pos + 1]))
                && final(self).pos == old(self).pos + 2,
            old(self).pos + 2 > old(self).buf@.len() ==> r == Err::<
                (u8, u8),
                JpegParseSegmentsError,
            >(JpegParseSegmentsError::UnexpectedEof) && final(self).pos == old(self).pos,
    {
        if self.buf.len() - self.pos < 2 {
            return Err(JpegParseSegmentsError::UnexpectedEof);
        }
        let tag = (self.buf[self.pos], self.buf[self.pos + 1]);
        self.pos = self.pos + 2;
        Ok(tag)
    }

    /// Reads the big-endian length field of a segment.
    pub fn read_length(&mut self) -> (r: Result<u16, JpegParseSegmentsError>)
        requires
            old(self).wf(),
        ensures
            final(self).buf@ == old(self).buf@,
            final(self).wf(),
            old(self).pos + 2 <= old(self).buf@.len() ==> r == Ok::<u16, JpegParseSegmentsError>(
                be16_at(old(self).buf@, old(self).pos as int),
            ) && final(self).pos == old(self).pos + 2,
            old(self).pos + 2 > old(self).buf@.len() ==> r == Err::<u16, JpegParseSegmentsError>(
                JpegParseSegmentsError::UnexpectedEof,
            ) && final(self).pos == old(self).pos,
    {
        if self.buf.len() - self.pos < 2 {
            return Err(JpegParseSegmentsError::UnexpectedEof);
        }
        let hi = self.buf[self.pos];
        let lo = self.buf[self.pos + 1];
        self.pos = self.pos + 2;
        Ok(hi as u16 * 256 + lo as u16)
    }

    /// Moves past entropy-coded data to the next real marker.
    pub fn skip_scan_data(&mut self) -> (r: Result<(), JpegParseSegmentsError>)
        requires
            old(self).wf(),
        ensures
            final(self).buf@ == old(self).buf@,
            final(self).wf(),
            match data_end(old(self).buf@, old(self).pos as int) {
                Ok(e) => r == Ok::<(), JpegParseSegmentsError>(()) && final(self).pos == e,
                Err(err) => r == Err::<(), JpegParseSegmentsError>(err),
            },
    {
        let found = find_data_end(self.buf, self.pos);
        match found {
            Ok(e) => {
                self.pos = e;
                Ok(())
            },
            Err(err) => Err(err),
        }
    }

    /// Decodes the fixed fields of an application segment whose payload starts at the
    /// cursor and ends at `end`, then moves past its thumbnail.
    fn decode_app0(&mut self, end: usize) -> (r: Result<App0, JpegParseSegmentsError>)
        requires
            old(self).wf(),
            old(self).pos + 14 <= end <= old(self).buf@.len(),
        ensures
            final(self).buf@ == old(self).buf@,
            final(self).wf(),
            match payload_at(old(self).buf@, APP0, old(self).pos as int, end as int) {
                Ok((s, e)) => r matches Ok(a) && s == SegmentView::Application(a) && final(self).pos
                    == e,
                Err(err) => r == Err::<App0, JpegParseSegmentsError>(err),
            },
    {
        let b = self.buf;
        let p = self.pos;
        if !(b[p] == 0x4A && b[p + 1] == 0x46 && b[p + 2] == 0x49 && b[p + 3] == 0x46 && b[p + 4]
            == 0) {
            return Err(JpegParseSegmentsError::InvalidIdentifier);
        }
        let app0 = App0 {
            major_revision_number: b[p + 5],
            minor_revision_number: b[p + 6],
            units_for_density: b[p + 7],
            x_density: b[p + 8] as u16 * 256 + b[p + 9] as u16,
            y_density: b[p + 10] as u16 * 256 + b[p + 11] as u16,
            thumbnail_width: b[p + 12],
            thumbnail_height: b[p + 13],
        };
        let w = app0.thumbnail_width as usize;
        let h = app0.thumbnail_height as usize;
        assert(w * h <= 255 * 255) by (nonlinear_arith)
            requires
                w <= 255,
                h <= 255,
        ;
        let thumbnail = w * h * 3;
        if thumbnail > b.len() - end {
            return Err(JpegParseSegmentsError::UnexpectedEof);
        }
        self.pos = end + thumbnail;
        Ok(app0)
    }

    /// Decodes the frame fields of a payload that starts at the cursor.
    fn decode_frame(&self) -> (r: Frame)
        requires
            self.pos + 6 <= self.buf@.len(),
        ensures
            r == frame_at(self.buf@, self.pos as int),
    {
        let b = self.buf;
        let p = self.pos;
        Frame {
            data_precision: b[p],
            image_height: b[p + 1] as u16 * 256 + b[p + 2] as u16,
            image_width: b[p + 3] as u16 * 256 + b[p + 4] as u16,
            components: b[p + 5],
        }
    }

    /// Decodes the payload of a length-prefixed segment with marker code `code`, which
    /// starts at the cursor and ends at `end`, and moves to the next segment.
    fn decode_payload(&mut self, code: u8, end: usize) -> (r: Result<
        Segment,
        JpegParseSegmentsError,
    >)
        requires
            old(self).wf(),
            old(self).pos <= end <= old(self).buf@.len(),
            has_length_field(code),
            end - old(self).pos + 2 >= min_length(code),
        ensures
            final(self).buf@ == old(self).buf@,
            final(self).wf(),
            outcome(r, final(self).pos) == payload_at(
                old(self).buf@,
                code,
                old(self).pos as int,
                end as int,
            ),
    {
        if code == APP0 {
            match self.decode_app0(end) {
                Ok(a) => Ok(Segment::Application(a)),
                Err(e) => Err(e),
            }
        } else if code == SOF0 || code == SOF2 {
            let frame = self.decode_frame();
            self.pos = end;
            Ok(Segment::FrameHeader(code - SOF0, frame))
        } else if code == COM {
            let text = utf8_lossy(slice_subrange(self.buf, self.pos, end));
            self.pos = end;
            Ok(Segment::Comment(text))
        } else if code == DQT {
            self.pos = end;
            Ok(Segment::QuantizationTable)
        } else if code == DHT {
            self.pos = end;
            Ok(Segment::HuffmanTable)
        } else {
            self.pos = end;
            match self.skip_scan_data() {
                Ok(()) => Ok(Segment::ScanStart),
                Err(e) => Err(e),
            }
        }
    }

    /// Decodes the segment with tag `tag`, whose body starts at the cursor, and moves
    /// to the next segment.
    pub fn decode_segment(&mut self, tag: (u8, u8)) -> (r: Result<Segment, JpegParseSegmentsError>)
        requires
            old(self).wf(),
        ensures
            final(self).buf@ == old(self).buf@,
            final(self).wf(),
            outcome(r, final(self).pos) == decode_at(old(self).buf@, tag, old(self).pos as int),
    {
        let (lead, code) = tag;
        if lead != MARKER {
            return Err(JpegParseSegmentsError::UnhandledSegment(lead, code));
        }
        if code == SOI {
            return Ok(Segment::StartOfImage);
        }
        if code == EOI {
            return Ok(Segment::EndOfImage);
        }
        let min = if code == APP0 {
            APP0_MIN_LENGTH
        } else if code == SOF0 || code == SOF2 {
            FRAME_MIN_LENGTH
        } else if code == DHT || code == DQT || code == SOS || code == COM {
            LENGTH_FIELD_SIZE
        } else {
            return Err(JpegParseSegmentsError::UnhandledSegment(lead, code));
        };
        let start = self.pos;
        let length = match self.read_length() {
            Ok(n) => n,
            Err(e) => return Err(e),
        };
        if length < min {
            return Err(JpegParseSegmentsError::InvalidSegmentSize { expected: min, actual: length });
        }
        if length as usize > self.buf.len() - start {
            return Err(JpegParseSegmentsError::UnexpectedEof);
        }
        self.decode_payload(code, start + length as usize)
    }

    /// Reads one segment, tag included, and moves to the next.
    pub fn read_segment(&mut self) -> (r: Result<Segment, JpegParseSegmentsError>)
        requires
            old(self).wf(),
        ensures
            final(self).buf@ == old(self).buf@,
            final(self).wf(),
            outcome(r, final(self).pos) == segment_at(old(self).buf@, old(self).pos as int),
    {
        match self.read_tag() {
            Ok(tag) => self.decode_segment(tag),
            Err(e) => Err(e),
        }
    }
}

/// Decodes the segments of `buf`, at most `max_segments` of them. The scan stops at the
/// end of the input, after an image end marker, or once `max_segments` segments are
/// found, in which case the bytes after them are left unconsumed. The first error ends
/// the scan and no segment is returned.
pub fn scan_with_limit(buf: &[u8], max_segments: usize) -> (r: Result<
    ScanResult,
    JpegParseSegmentsError,
>)
    ensures
        scan_outcome(r) == scan_spec(buf@, max_segments as nat),
        r matches Ok(res) ==> res.segments@.len() <= max_segments && res.consumed <= buf@.len(),
{
    let mut cursor = ByteCursor::new(buf);
    let mut segments: Vec<Segment> = Vec::new();
    let mut count: usize = 0;
    assert(views(segments@) =~= Seq::<SegmentView>::empty());
    while count < max_segments && cursor.pos < buf.len()
        invariant
            cursor.buf@ == buf@,
            cursor.wf(),
            count <= max_segments,
            segments@.len() == count,
            scan_spec(buf@, max_segments as nat) == scan_from(
                buf@,
                cursor.pos as int,
                (max_segments - count) as nat,
                views(segments@),
            ),
        decreases max_segments - count,
    {
        let ghost before = views(segments@);
        match cursor.read_segment() {
            Err(e) => {
                return Err(e);
            },
            Ok(seg) => {
                let is_end = matches!(seg, Segment::EndOfImage);
                segments.push(seg);
                count = count + 1;
                assert(views(segments@) =~= before.push(seg@));
                if is_end {
                    return Ok(ScanResult { segments, consumed: cursor.pos });
                }
            },
        }
    }
    Ok(ScanResult { segments, consumed: cursor.pos })
}

/// Decodes the segments of `buf`, at most `MAX_SEGMENTS` of them, as `scan_with_limit`
/// does.
pub fn scan(buf: &[u8]) -> (r: Result<ScanResult, JpegParseSegmentsError>)
    ensures
        scan_outcome(r) == scan_spec(buf@, MAX_SEGMENTS as nat),
        r matches Ok(res) ==> res.segments@.len() <= MAX_SEGMENTS && res.consumed <= buf@.len(),
{
    scan_with_limit(buf, MAX_SEGMENTS)
}

} // verus!
