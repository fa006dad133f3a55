//! What holds of every scan, proved from the decoding model.
use vstd::prelude::*;
use crate::jpeg::{
    app0_at, be16_at, data_end, frame_at, has_length_field, is_jfif_at, scan_from, scan_spec, segment_at,
    JpegParseSegmentsError, ScanResult, SegmentView, scan_outcome, min_length, APP0_MIN_LENGTH, APP0, COM, EOI, MARKER, SOF0, SOF2, SOI, SOS,
};

verus! {

/// The segment that a byte string decodes to from its start.
pub open spec fn segment_of(c: Seq<u8>) -> SegmentView {
    segment_at(c, 0)->Ok_0.0
}

/// Whether `c` is one whole segment, fixed-size or length-prefixed (not a scan start,
/// whose data runs to the next marker), that decodes from its first byte to its last.
pub open spec fn is_whole_segment(c: Seq<u8>) -> bool {
    &&& c.len() >= 2
    &&& !(c[0] == MARKER && c[1] == SOS)
    &&& segment_at(c, 0) is Ok
    &&& segment_at(c, 0)->Ok_0.1 == c.len()
}

/// The segments that a run of whole segments decodes to, one for each.
pub open spec fn segments_of(chunks: Seq<Seq<u8>>) -> Seq<SegmentView> {
    chunks.map_values(|c: Seq<u8>| segment_of(c))
}

/// Whether each of `chunks` is a whole segment, and only the last may be an image end.
pub open spec fn is_segment_run(chunks: Seq<Seq<u8>>) -> bool {
    &&& forall|i: int| 0 <= i < chunks.len() ==> is_whole_segment(#[trigger] chunks[i])
    &&& forall|i: int| 0 <= i < chunks.len() - 1 ==> !(segment_of(#[trigger] chunks[i]) is EndOfImage)
}

/// A whole segment decodes the same wherever it stands in a larger buffer.
proof fn lemma_segment_local(buf: Seq<u8>, pos: int, c: Seq<u8>)
    requires
        0 <= pos,
        pos + c.len() <= buf.len(),
        buf.subrange(pos, pos + c.len()) == c,
        is_whole_segment(c),
    ensures
        segment_at(buf, pos) == Ok::<(SegmentView, int), JpegParseSegmentsError>(
            (segment_of(c), pos + c.len()),
        ),
{
    assert forall|k: int| 0 <= k < c.len() implies buf[pos + k] == c[k] by {
        assert(buf.subrange(pos, pos + c.len())[k] == buf[pos + k]);
    }
    let code = c[1];
    if c[0] == MARKER && code != SOI && code != EOI && has_length_field(code) {
        let len = be16_at(c, 2);
        assert(be16_at(buf, pos + 2) == len);
        if code == COM {
            assert(buf.subrange(pos + 4, pos + 2 + len) =~= c.subrange(4, 2 + len));
        }
        if code == APP0 {
            assert(is_jfif_at(buf, pos + 4) == is_jfif_at(c, 4));
            assert(app0_at(buf, pos + 4) == app0_at(c, 4));
        }
        if code == SOF0 || code == SOF2 {
            assert(frame_at(buf, pos + 4) == frame_at(c, 4));
        }
    }
}

/// Scanning a run of whole segments placed after `pre`, with room for `budget` more:
/// the first `budget` of them (all, where there are fewer) are found, and the scan
/// stops right after the last one found.
#[verifier::rlimit(40)]
proof fn lemma_scan_run(pre: Seq<u8>, chunks: Seq<Seq<u8>>, budget: nat, found: Seq<SegmentView>)
    requires
        is_segment_run(chunks),
    ensures
        ({
            let k = if budget < chunks.len() { budget as int } else { chunks.len() as int };
            scan_from(pre + chunks.flatten(), pre.len() as int, budget, found) == Ok::<
                (Seq<SegmentView>, int),
                JpegParseSegmentsError,
            >((found + segments_of(chunks.take(k)), (pre.len() + chunks.take(k).flatten().len()) as int))
        }),
    decreases chunks.len(),
{
    let buf = pre + chunks.flatten();
    if chunks.len() == 0 || budget == 0 {
        assert(chunks.take(0) =~= Seq::<Seq<u8>>::empty());
        assert(found + segments_of(chunks.take(0)) =~= found);
        if chunks.len() == 0 {
            assert(buf =~= pre);
        }
    } else {
        let c = chunks[0];
        let rest = chunks.drop_first();
        assert(chunks.flatten() == c + rest.flatten());
        assert(buf.subrange(pre.len() as int, (pre.len() + c.len()) as int) =~= c);
        lemma_segment_local(buf, pre.len() as int, c);
        let s = segment_of(c);
        if s is EndOfImage {
            assert(chunks.len() == 1);
            assert(chunks.take(1) =~= seq![c]);
            chunks.take(1).lemma_flatten_one_element();
            assert(found.push(s) =~= found + segments_of(chunks.take(1)));
        } else {
            let pre2 = pre + c;
            assert(buf =~= pre2 + rest.flatten());
            assert(is_segment_run(rest)) by {
                assert forall|i: int| 0 <= i < rest.len() implies is_whole_segment(
                    #[trigger] rest[i],
                ) by {
                    assert(rest[i] == chunks[i + 1]);
                }
                assert forall|i: int| 0 <= i < rest.len() - 1 implies !(segment_of(
                    #[trigger] rest[i],
                ) is EndOfImage) by {
                    assert(rest[i] == chunks[i + 1]);
                }
            }
            lemma_scan_run(pre2, rest, (budget - 1) as nat, found.push(s));
            let k = if budget < chunks.len() { budget as int } else { chunks.len() as int };
            let taken = chunks.take(k);
            assert(taken.drop_first() =~= rest.take(k - 1));
            assert(taken.first() == c);
            assert(taken.flatten() == c + rest.take(k - 1).flatten());
            assert(found.push(s) + segments_of(rest.take(k - 1)) =~= found + segments_of(taken));
        }
    }
}

/// A buffer made of whole segments, fixed-size or length-prefixed with lengths that
/// agree with their contents, of which only the last may be an image end, and no more
/// of them than the limit, is decoded into exactly those segments, in order, and the
/// scan consumes every byte of it.
pub proof fn law_whole_input_consumed(chunks: Seq<Seq<u8>>, limit: nat)
    requires
        is_segment_run(chunks),
        chunks.len() <= limit,
    ensures
        scan_spec(chunks.flatten(), limit) == Ok::<(Seq<SegmentView>, int), JpegParseSegmentsError>(
            (segments_of(chunks), chunks.flatten().len() as int),
        ),
{
    lemma_scan_run(Seq::empty(), chunks, limit, Seq::empty());
    assert(chunks.take(chunks.len() as int) =~= chunks);
    assert(Seq::<u8>::empty() + chunks.flatten() =~= chunks.flatten());
    assert(Seq::<SegmentView>::empty() + segments_of(chunks) =~= segments_of(chunks));
}

/// A buffer made of more whole segments than the limit is decoded into its first
/// `limit` segments, and the scan stops right after them: it never runs on.
pub proof fn law_segment_cap(chunks: Seq<Seq<u8>>, limit: nat)
    requires
        is_segment_run(chunks),
        chunks.len() > limit,
    ensures
        scan_spec(chunks.flatten(), limit) == Ok::<(Seq<SegmentView>, int), JpegParseSegmentsError>(
            (segments_of(chunks.take(limit as int)), chunks.take(limit as int).flatten().len() as int),
        ),
{
    lemma_scan_run(Seq::empty(), chunks, limit, Seq::empty());
    assert(Seq::<u8>::empty() + chunks.flatten() =~= chunks.flatten());
    assert(Seq::<SegmentView>::empty() + segments_of(chunks.take(limit as int)) =~= segments_of(
        chunks.take(limit as int),
    ));
}

/// A length-prefixed segment at the start of the input that declares a length below
/// its tag's minimum ends the scan with `InvalidSegmentSize`, naming that minimum and
/// the declared length, whatever follows the length field; the scan reads nothing past it.
pub proof fn law_short_length_rejected(buf: Seq<u8>, limit: nat)
    requires
        buf.len() >= 4,
        buf[0] == MARKER,
        has_length_field(buf[1]),
        be16_at(buf, 2) < min_length(buf[1]),
        limit > 0,
    ensures
        scan_spec(buf, limit) == Err::<(Seq<SegmentView>, int), JpegParseSegmentsError>(
            JpegParseSegmentsError::InvalidSegmentSize {
                expected: min_length(buf[1]),
                actual: be16_at(buf, 2),
            },
        ),
        scan_spec(buf, limit) == scan_spec(buf.subrange(0, 4), limit),
{
    let head = buf.subrange(0, 4);
    assert(head[0] == buf[0] && head[1] == buf[1] && head[2] == buf[2] && head[3] == buf[3]);
    assert(be16_at(head, 2) == be16_at(buf, 2));
}

/// An application segment at the start of the input, complete, whose identifier is not
/// `JFIF\0` ends the scan with `InvalidIdentifier`, whatever its other fields hold.
pub proof fn law_bad_identifier_rejected(buf: Seq<u8>, limit: nat)
    requires
        buf.len() >= 4,
        buf[0] == MARKER,
        buf[1] == APP0,
        be16_at(buf, 2) >= APP0_MIN_LENGTH,
        2 + be16_at(buf, 2) <= buf.len(),
        !is_jfif_at(buf, 4),
        limit > 0,
    ensures
        scan_spec(buf, limit) == Err::<(Seq<SegmentView>, int), JpegParseSegmentsError>(
            JpegParseSegmentsError::InvalidIdentifier,
        ),
{
}

/// A scan is a function of its input: two scans of the same bytes with the same limit
/// find the same segments and stop at the same place, or fail with the same error.
pub proof fn law_rescan_same(
    buf: Seq<u8>,
    limit: nat,
    first: Result<ScanResult, JpegParseSegmentsError>,
    second: Result<ScanResult, JpegParseSegmentsError>,
)
    requires
        scan_outcome(first) == scan_spec(buf, limit),
        scan_outcome(second) == scan_spec(buf, limit),
    ensures
        scan_outcome(first) == scan_outcome(second),
{
}

/// A first tag that is not a known marker (a lead byte other than `0xFF`, or a code
/// with no known layout) ends the scan with `UnhandledSegment` naming that tag.
pub proof fn law_unknown_tag_rejected(buf: Seq<u8>, limit: nat)
    requires
        buf.len() >= 2,
        buf[0] != MARKER || (buf[1] != SOI && buf[1] != EOI && !has_length_field(buf[1])),
        limit > 0,
    ensures
        scan_spec(buf, limit) == Err::<(Seq<SegmentView>, int), JpegParseSegmentsError>(
            JpegParseSegmentsError::UnhandledSegment(buf[0], buf[1]),
        ),
{
}

/// The byte-stuffing scan of entropy-coded data from `p` always ends, after one step
/// per byte at most. Where it finds a marker at `e`, that marker is real: `0xFF`
/// followed by a byte other than `0x00`, and every `0xFF` between `p` and `e` is the
/// first byte of a stuffed pair `0xFF, 0x00`, taken as data. Where it finds no such
/// marker, it fails with `UnexpectedEof`.
pub proof fn law_stuffing_stops_at_real_marker(buf: Seq<u8>, p: int)
    requires
        0 <= p,
    ensures
        data_end(buf, p) matches Ok(e) ==> {
            &&& p <= e
            &&& e + 1 < buf.len()
            &&& buf[e] == MARKER
            &&& buf[e + 1] != 0
            &&& forall|q: int| p <= q < e && #[trigger] buf[q] == MARKER ==> buf[q + 1] == 0
        },
        data_end(buf, p) is Err ==> data_end(buf, p) == Err::<int, JpegParseSegmentsError>(
            JpegParseSegmentsError::UnexpectedEof,
        ),
    decreases buf.len() - p,
{
    if p < buf.len() {
        if buf[p] != MARKER {
            law_stuffing_stops_at_real_marker(buf, p + 1);
        } else if p + 1 < buf.len() && buf[p + 1] == 0 {
            law_stuffing_stops_at_real_marker(buf, p + 2);
        }
    }
}

/// A scan start segment, where it decodes, ends on a real marker: the next segment
/// starts with `0xFF` followed by a byte other than `0x00`, after the segment's header,
/// and every `0xFF` in its data is a stuffed pair `0xFF, 0x00`.
pub proof fn law_scan_start_ends_at_marker(buf: Seq<u8>, pos: int)
    requires
        0 <= pos,
        pos + 2 <= buf.len(),
        buf[pos] == MARKER,
        buf[pos + 1] == SOS,
    ensures
        segment_at(buf, pos) matches Ok((s, e)) ==> {
            &&& s is ScanStart
            &&& pos + 4 <= e
            &&& e + 1 < buf.len()
            &&& buf[e] == MARKER
            &&& buf[e + 1] != 0
            &&& forall|q: int|
                pos + 2 + be16_at(buf, pos + 2) <= q < e && #[trigger] buf[q] == MARKER ==> buf[q + 1]
                    == 0
        },
{
    if pos + 4 <= buf.len() {
        law_stuffing_stops_at_real_marker(buf, pos + 2 + be16_at(buf, pos + 2));
    }
}

} // verus!
