//! The two byte-layout transforms between the console layout and the
//! editor layout, and the marker-driven auto-detection that routes to the
//! inverse transform.

use vstd::prelude::*;

use crate::constants::ALIGNED_START_IN_MIDDLE;
use crate::constants::EDITOR_SIZE;
use crate::constants::FILL_LEN;
use crate::constants::HCD_START_PC_READY;
use crate::constants::MISSING_LEN;
use crate::constants::PS4_SIZE;
use crate::constants::Z_INDEX_EDITOR;
use crate::constants::FLAG_LEFTOVERS;
use crate::constants::FLAG_NO_LEFTOVERS;
use crate::constants::HEADER_LEN;
use crate::constants::MARKER_OFFSET;
use crate::constants::MD5_HEADER_SIZE;
use crate::constants::MIDDLE_SEGMENT_LEN;
use crate::constants::REQUIRED_PREFIX_LEN;
use crate::constants::SAV_START_EDITOR;
use crate::constants::VER_V2;
use crate::marker::has_magic_at;
use crate::marker::looks_like_v2;
use crate::marker::looks_v2_spec;
use crate::marker::magic_at;
use crate::marker::make_marker;
use crate::marker::marker_decode;
use crate::marker::marker_seq;
use crate::marker::try_read_marker;
use crate::utils::all_zero;
use crate::utils::all_zero_seq;
use crate::utils::push_range;
use crate::utils::push_zeros;
use crate::utils::zero_seq;

verus! {

/// Why a transform refused its input. Each variant carries the offsets or
/// lengths involved, so a caller can report the failure precisely.
#[derive(Clone, Copy, Debug, PartialEq, Eq, Structural)]
pub enum ConvError {
    /// The console buffer is too short to hold the fixed header sections,
    /// the tail byte and a non-trivial middle region.
    ConsoleTooSmall { len: usize },
    /// The middle region ends at or before the aligned data section's
    /// start, so the section is absent or empty.
    AlignedSectionTruncated { middle_len: usize, aligned_start: usize },
    /// The magic pattern is absent at a required offset of the named
    /// buffer.
    MagicMissing { offset: usize },
    /// The editor buffer does not have the exact editor-layout size.
    EditorSizeMismatch { expected: usize, got: usize },
    /// No well-formed marker is present at the fixed marker offset.
    MarkerUnrecognized,
    /// The marker decodes to the supported version, but the surrounding
    /// structure fails the plausibility check.
    MarkerStructureMismatch,
}

/// What the forward transform returns on success: the editor-layout buffer,
/// and the trimmed excess bytes when they were not all zero. The caller owes
/// those bytes to the spill file.
pub struct ForwardOutcome {
    /// The assembled editor-layout buffer, of exactly the editor size.
    pub editor: Vec<u8>,
    /// The non-zero trimmed excess, to be written to the spill file;
    /// `None` when nothing was trimmed or the trimmed bytes were all zero.
    pub leftovers: Option<Vec<u8>>,
}

/// The middle region of a console buffer: everything between the two fixed
/// header sections and the tail byte.
pub open spec fn fwd_middle(s: Seq<u8>) -> Seq<u8> {
    s.subrange(HEADER_LEN as int, s.len() - 1)
}

/// The untrimmed editor-layout prefix: leading segment, marker, middle
/// segment, alignment fill, then the whole aligned data section.
pub open spec fn fwd_prefix_full(s: Seq<u8>, flag: u8) -> Seq<u8> {
    let middle = fwd_middle(s);
    middle.subrange(0, 8) + marker_seq(VER_V2, flag) + middle.subrange(
        8,
        ALIGNED_START_IN_MIDDLE as int,
    ) + zero_seq(FILL_LEN as nat) + middle.subrange(
        ALIGNED_START_IN_MIDDLE as int,
        middle.len() as int,
    )
}

/// The bytes the forward transform trims from the end of the prefix;
/// empty when the prefix is short enough to need padding instead.
pub open spec fn fwd_removed(s: Seq<u8>) -> Seq<u8> {
    let p = fwd_prefix_full(s, FLAG_NO_LEFTOVERS);
    if p.len() > REQUIRED_PREFIX_LEN {
        p.subrange(REQUIRED_PREFIX_LEN as int, p.len() as int)
    } else {
        Seq::empty()
    }
}

/// The forward transform spills exactly when some trimmed byte is non-zero.
pub open spec fn fwd_spill(s: Seq<u8>) -> bool {
    fwd_removed(s).len() > 0 && !all_zero_seq(fwd_removed(s))
}

/// The flag byte the finished editor buffer carries.
pub open spec fn fwd_flag(s: Seq<u8>) -> u8 {
    if fwd_spill(s) {
        FLAG_LEFTOVERS
    } else {
        FLAG_NO_LEFTOVERS
    }
}

/// The editor-layout prefix brought to its required length, by trimming the
/// excess or by right-padding with zero bytes.
pub open spec fn fwd_prefix(s: Seq<u8>) -> Seq<u8> {
    let p = fwd_prefix_full(s, fwd_flag(s));
    if p.len() >= REQUIRED_PREFIX_LEN {
        p.subrange(0, REQUIRED_PREFIX_LEN as int)
    } else {
        p + zero_seq((REQUIRED_PREFIX_LEN - p.len()) as nat)
    }
}

/// The finished editor-layout buffer: prefix, tail byte, sentinel block,
/// checksum header.
pub open spec fn fwd_editor(s: Seq<u8>) -> Seq<u8> {
    fwd_prefix(s) + seq![s[s.len() - 1]] + s.subrange(MD5_HEADER_SIZE as int, HEADER_LEN as int)
        + s.subrange(0, MD5_HEADER_SIZE as int)
}

/// The forward transform succeeds exactly on these inputs: the buffer
/// reaches past the aligned data section's start (so the section is
/// non-empty), and magic heads the sentinel block.
pub open spec fn fwd_ok(s: Seq<u8>) -> bool {
    &&& s.len() > HEADER_LEN + 1 + ALIGNED_START_IN_MIDDLE
    &&& magic_at(s, MD5_HEADER_SIZE as int)
}

/// Which error the forward transform reports for an input it refuses.
pub open spec fn fwd_err(s: Seq<u8>) -> ConvError {
    if s.len() <= HEADER_LEN + 9 {
        ConvError::ConsoleTooSmall { len: s.len() as usize }
    } else if s.len() <= HEADER_LEN + 1 + ALIGNED_START_IN_MIDDLE {
        ConvError::AlignedSectionTruncated {
            middle_len: (s.len() - (HEADER_LEN + 1)) as usize,
            aligned_start: ALIGNED_START_IN_MIDDLE,
        }
    } else {
        ConvError::MagicMissing { offset: SAV_START_EDITOR }
    }
}

/// The forward transform, console layout to editor layout.
///
/// Splits the console buffer by the fixed sizes, relocates the checksum
/// header and the sentinel block to the end, inserts the marker and the
/// alignment fill, and brings the prefix to its required length. Bytes
/// trimmed from the end come back in `leftovers` when any of them is
/// non-zero; the marker's flag byte then says so.
pub fn ps4_to_pcready(data: &[u8]) -> (r: Result<ForwardOutcome, ConvError>)
    ensures
        r is Ok <==> fwd_ok(data@),
        r matches Err(e) ==> e == fwd_err(data@),
        r matches Ok(out) ==> {
            &&& out.editor@ == fwd_editor(data@)
            &&& out.editor@.len() == EDITOR_SIZE
            &&& (out.leftovers is Some) == fwd_spill(data@)
            &&& (out.leftovers matches Some(l) ==> l@ == fwd_removed(data@))
            &&& magic_at(out.editor@, SAV_START_EDITOR as int)
            &&& marker_decode(out.editor@) == Some((VER_V2, fwd_flag(data@)))
        },
{
    let n = data.len();
    if n < HEADER_LEN + 1 || n - (HEADER_LEN + 1) <= 8 {
        return Err(ConvError::ConsoleTooSmall { len: n });
    }
    let middle_len = n - (HEADER_LEN + 1);
    if middle_len <= ALIGNED_START_IN_MIDDLE {
        return Err(
            ConvError::AlignedSectionTruncated {
                middle_len,
                aligned_start: ALIGNED_START_IN_MIDDLE,
            },
        );
    }
    let aligned_len = middle_len - ALIGNED_START_IN_MIDDLE;
    let prefix_full_len = 8 + 8 + MIDDLE_SEGMENT_LEN + FILL_LEN + aligned_len;
    let excess: usize = if prefix_full_len > REQUIRED_PREFIX_LEN {
        prefix_full_len - REQUIRED_PREFIX_LEN
    } else {
        0
    };
    proof {
        assert(excess <= aligned_len);
    }

    // The excess sits at the very end of the aligned data section, so it is
    // known before the prefix is assembled; the marker's flag byte can be
    // chosen up front.
    let mut removed: Vec<u8> = Vec::new();
    push_range(&mut removed, data, n - 1 - excess, n - 1);
    let spill = excess > 0 && !all_zero(removed.as_slice());
    let flag = if spill {
        FLAG_LEFTOVERS
    } else {
        FLAG_NO_LEFTOVERS
    };

    let m = make_marker(VER_V2, flag);
    let mut out: Vec<u8> = Vec::new();
    push_range(&mut out, data, HEADER_LEN, HEADER_LEN + 8);
    out.push(m[0]);
    out.push(m[1]);
    out.push(m[2]);
    out.push(m[3]);
    out.push(m[4]);
    out.push(m[5]);
    out.push(m[6]);
    out.push(m[7]);
    proof {
        assert(out@ =~= fwd_middle(data@).subrange(0, 8) + marker_seq(VER_V2, flag));
    }
    push_range(&mut out, data, HEADER_LEN + 8, HEADER_LEN + ALIGNED_START_IN_MIDDLE);
    push_zeros(&mut out, FILL_LEN);
    push_range(&mut out, data, HEADER_LEN + ALIGNED_START_IN_MIDDLE, n - 1 - excess);
    if out.len() < REQUIRED_PREFIX_LEN {
        let pad = REQUIRED_PREFIX_LEN - out.len();
        push_zeros(&mut out, pad);
    }
    proof {
        assert(removed@ =~= fwd_removed(data@));
        assert(spill == fwd_spill(data@));
        assert(out@ =~= fwd_prefix(data@));
    }

    out.push(data[n - 1]);
    push_range(&mut out, data, MD5_HEADER_SIZE, HEADER_LEN);
    push_range(&mut out, data, 0, MD5_HEADER_SIZE);
    proof {
        assert(out@ =~= fwd_editor(data@));
    }

    if !has_magic_at(out.as_slice(), SAV_START_EDITOR) {
        return Err(ConvError::MagicMissing { offset: SAV_START_EDITOR });
    }
    proof {
        assert(magic_at(data@, MD5_HEADER_SIZE as int));
        assert(out@.subrange(8, 16) =~= marker_seq(VER_V2, flag));
        crate::marker::lemma_marker_round_trip(out@, VER_V2, flag);
    }

    let leftovers = if spill {
        Some(removed)
    } else {
        None
    };
    Ok(ForwardOutcome { editor: out, leftovers })
}

/// What the inverse transform returns on success: the console-layout buffer,
/// and a warning flag for the best-effort recovery case.
pub struct InverseOutcome {
    /// The reconstructed console-layout buffer, of exactly the console size.
    pub console: Vec<u8>,
    /// The marker announced spilled data but none was supplied, so the
    /// missing region was zero-filled. A non-fatal observation the caller
    /// should report.
    pub spill_missing: bool,
}

/// The view of the optionally supplied spill-file bytes.
pub open spec fn lf_view(lf: Option<&[u8]>) -> Option<Seq<u8>> {
    match lf {
        Some(l) => Some(l@),
        None => None,
    }
}

/// The bytes that refill the missing end of the aligned data section: taken
/// from the start of the spill data when the flag is set and spill data is
/// at hand, zero otherwise; always brought to the fixed deficit length.
pub open spec fn recovered_seq(flag: bool, lf: Option<Seq<u8>>) -> Seq<u8> {
    if flag {
        match lf {
            Some(l) => if l.len() >= MISSING_LEN {
                l.subrange(0, MISSING_LEN as int)
            } else {
                l + zero_seq((MISSING_LEN - l.len()) as nat)
            },
            None => zero_seq(MISSING_LEN as nat),
        }
    } else {
        zero_seq(MISSING_LEN as nat)
    }
}

/// The reconstructed console middle region: leading segment, middle
/// segment, the present part of the aligned data section, then the
/// recovered deficit.
pub open spec fn inv_middle(e: Seq<u8>, flag: bool, lf: Option<Seq<u8>>) -> Seq<u8> {
    e.subrange(0, 8) + e.subrange(16, 16 + MIDDLE_SEGMENT_LEN) + e.subrange(
        HCD_START_PC_READY as int,
        Z_INDEX_EDITOR as int,
    ) + recovered_seq(flag, lf)
}

/// The reconstructed console buffer: checksum header, sentinel block,
/// middle region, tail byte.
pub open spec fn inv_console(e: Seq<u8>, flag: bool, lf: Option<Seq<u8>>) -> Seq<u8> {
    e.subrange((EDITOR_SIZE - MD5_HEADER_SIZE) as int, EDITOR_SIZE as int) + e.subrange(
        SAV_START_EDITOR as int,
        (EDITOR_SIZE - MD5_HEADER_SIZE) as int,
    ) + inv_middle(e, flag, lf) + seq![e[Z_INDEX_EDITOR as int]]
}

/// The inverse transform succeeds exactly on these inputs: the exact editor
/// size, magic at the relocated sentinel block, and magic heading the
/// leading segment (where the console layout requires its second sentinel).
pub open spec fn inv_ok(e: Seq<u8>) -> bool {
    &&& e.len() == EDITOR_SIZE
    &&& magic_at(e, SAV_START_EDITOR as int)
    &&& magic_at(e, 0)
}

/// Which error the inverse transform reports for an input it refuses. The
/// offsets of the magic errors are those of the buffer that failed the
/// check: the editor buffer's sentinel position, or the console buffer's
/// second sentinel position.
pub open spec fn inv_err(e: Seq<u8>) -> ConvError {
    if e.len() != EDITOR_SIZE {
        ConvError::EditorSizeMismatch { expected: EDITOR_SIZE, got: e.len() as usize }
    } else if !magic_at(e, SAV_START_EDITOR as int) {
        ConvError::MagicMissing { offset: SAV_START_EDITOR }
    } else {
        ConvError::MagicMissing { offset: HEADER_LEN }
    }
}

/// The inverse transform, editor layout to console layout.
///
/// Locates the relocated header sections from the end, re-extracts the
/// segments around the alignment fill, and rebuilds the console middle
/// region. The deficit at the end of the aligned data section is refilled
/// from `leftovers` when `has_leftovers_flag` is set and bytes were
/// supplied; otherwise it is zero-filled, and `spill_missing` reports the
/// flag-set-but-absent case as a warning.
pub fn pcready_to_ps4(data: &[u8], has_leftovers_flag: bool, leftovers: Option<&[u8]>) -> (r:
    Result<InverseOutcome, ConvError>)
    ensures
        r is Ok <==> inv_ok(data@),
        r matches Err(e) ==> e == inv_err(data@),
        r matches Ok(out) ==> {
            &&& out.console@ == inv_console(data@, has_leftovers_flag, lf_view(leftovers))
            &&& out.console@.len() == PS4_SIZE
            &&& magic_at(out.console@, MD5_HEADER_SIZE as int)
            &&& magic_at(out.console@, HEADER_LEN as int)
            &&& out.spill_missing == (has_leftovers_flag && leftovers is None)
        },
{
    if data.len() != EDITOR_SIZE {
        return Err(ConvError::EditorSizeMismatch { expected: EDITOR_SIZE, got: data.len() });
    }
    if !has_magic_at(data, SAV_START_EDITOR) {
        return Err(ConvError::MagicMissing { offset: SAV_START_EDITOR });
    }

    // Refill the deficit at the end of the aligned data section: from the
    // spill data when announced and supplied, zero otherwise.
    let mut recovered: Vec<u8> = Vec::new();
    let mut spill_missing = false;
    if has_leftovers_flag {
        match leftovers {
            Some(lf) => {
                let take = if lf.len() < MISSING_LEN {
                    lf.len()
                } else {
                    MISSING_LEN
                };
                push_range(&mut recovered, lf, 0, take);
                push_zeros(&mut recovered, MISSING_LEN - take);
            },
            None => {
                spill_missing = true;
                push_zeros(&mut recovered, MISSING_LEN);
            },
        }
    } else {
        push_zeros(&mut recovered, MISSING_LEN);
    }
    proof {
        assert(recovered@ =~= recovered_seq(has_leftovers_flag, lf_view(leftovers)));
    }

    let mut out: Vec<u8> = Vec::new();
    push_range(&mut out, data, EDITOR_SIZE - MD5_HEADER_SIZE, EDITOR_SIZE);
    push_range(&mut out, data, SAV_START_EDITOR, EDITOR_SIZE - MD5_HEADER_SIZE);
    push_range(&mut out, data, 0, 8);
    push_range(&mut out, data, 16, 16 + MIDDLE_SEGMENT_LEN);
    push_range(&mut out, data, HCD_START_PC_READY, Z_INDEX_EDITOR);
    push_range(&mut out, recovered.as_slice(), 0, recovered.len());
    out.push(data[Z_INDEX_EDITOR]);
    proof {
        assert(out@ =~= inv_console(data@, has_leftovers_flag, lf_view(leftovers)));
    }

    if !has_magic_at(out.as_slice(), MD5_HEADER_SIZE) {
        return Err(ConvError::MagicMissing { offset: MD5_HEADER_SIZE });
    }
    if !has_magic_at(out.as_slice(), HEADER_LEN) {
        return Err(ConvError::MagicMissing { offset: HEADER_LEN });
    }
    Ok(InverseOutcome { console: out, spill_missing })
}

/// The spill flag that auto-detection reads out of the marker.
pub open spec fn auto_spill_flag(s: Seq<u8>) -> bool {
    marker_decode(s) == Some((VER_V2, FLAG_LEFTOVERS))
}

/// Which error auto-detection or the routed inverse transform reports.
pub open spec fn auto_err(s: Seq<u8>) -> ConvError {
    if marker_decode(s) is None {
        ConvError::MarkerUnrecognized
    } else if !looks_v2_spec(s) {
        ConvError::MarkerStructureMismatch
    } else {
        inv_err(s)
    }
}

/// Format auto-detection, then the inverse transform.
///
/// Decodes the marker (absent markers are rejected), requires the
/// structural plausibility check on top of the version byte, and routes to
/// the inverse transform with the spill flag read from the marker.
pub fn convert_auto(data: &[u8], leftovers: Option<&[u8]>) -> (r: Result<
    InverseOutcome,
    ConvError,
>)
    ensures
        r is Ok <==> (looks_v2_spec(data@) && magic_at(data@, 0)),
        r matches Err(e) ==> e == auto_err(data@),
        r matches Ok(out) ==> {
            &&& out.console@ == inv_console(data@, auto_spill_flag(data@), lf_view(leftovers))
            &&& out.console@.len() == PS4_SIZE
            &&& magic_at(out.console@, MD5_HEADER_SIZE as int)
            &&& magic_at(out.console@, HEADER_LEN as int)
            &&& out.spill_missing == (auto_spill_flag(data@) && leftovers is None)
        },
{
    let mk = try_read_marker(data);
    let (_version, flag) = match mk {
        Some(p) => p,
        None => {
            return Err(ConvError::MarkerUnrecognized);
        },
    };
    if !looks_like_v2(data) {
        return Err(ConvError::MarkerStructureMismatch);
    }
    pcready_to_ps4(data, flag == FLAG_LEFTOVERS, leftovers)
}

/// Best-effort recovery law: when the marker announces spilled data but no
/// spill data is at hand, the inverse transform zero-fills the deficit —
/// the very buffer it builds when the flag is clear.
pub proof fn lemma_missing_spill_zero_fill(e: Seq<u8>)
    ensures
        inv_console(e, true, None) == inv_console(e, false, None),
{
}

/// The spine of both round-trip laws: for a full-size console buffer with
/// its two sentinels in place, the forward transform's output is detected
/// and accepted by the inverse transform, and the inverse rebuilds the
/// original buffer whenever the recovered deficit equals the trimmed
/// excess.
proof fn lemma_round_trip_core(s: Seq<u8>, flag: bool, lf: Option<Seq<u8>>)
    requires
        s.len() == PS4_SIZE,
        magic_at(s, MD5_HEADER_SIZE as int),
        magic_at(s, HEADER_LEN as int),
        recovered_seq(flag, lf) == fwd_removed(s),
    ensures
        fwd_ok(s),
        fwd_removed(s).len() == MISSING_LEN,
        fwd_editor(s).len() == EDITOR_SIZE,
        marker_decode(fwd_editor(s)) == Some((VER_V2, fwd_flag(s))),
        looks_v2_spec(fwd_editor(s)),
        inv_ok(fwd_editor(s)),
        inv_console(fwd_editor(s), flag, lf) == s,
{
    let e = fwd_editor(s);
    let pff = fwd_prefix_full(s, fwd_flag(s));
    let req = REQUIRED_PREFIX_LEN as int;
    assert(pff.len() == s.len() - 9);
    assert(fwd_prefix(s) =~= pff.subrange(0, req));
    assert(e.len() == EDITOR_SIZE);
    assert(fwd_removed(s) =~= s.subrange(PS4_SIZE - 1 - MISSING_LEN, PS4_SIZE - 1));

    // the marker sits at its fixed offset of the editor buffer
    assert(e.subrange(MARKER_OFFSET as int, MARKER_OFFSET + 8) =~= marker_seq(
        VER_V2,
        fwd_flag(s),
    ));
    crate::marker::lemma_marker_round_trip(e, VER_V2, fwd_flag(s));

    // both sentinels of the console buffer are where the inverse looks
    assert(e.subrange(SAV_START_EDITOR as int, (EDITOR_SIZE - MD5_HEADER_SIZE) as int)
        =~= s.subrange(MD5_HEADER_SIZE as int, HEADER_LEN as int));
    assert(e.subrange(0, 8) =~= s.subrange(HEADER_LEN as int, HEADER_LEN + 8));
    assert(magic_at(e, SAV_START_EDITOR as int));
    assert(magic_at(e, 0));

    // each piece the inverse extracts is the corresponding console piece
    assert(e.subrange((EDITOR_SIZE - MD5_HEADER_SIZE) as int, EDITOR_SIZE as int) =~= s.subrange(
        0,
        MD5_HEADER_SIZE as int,
    ));
    assert(e.subrange(16, 16 + MIDDLE_SEGMENT_LEN) =~= s.subrange(
        HEADER_LEN + 8,
        HEADER_LEN + ALIGNED_START_IN_MIDDLE,
    ));
    assert(e.subrange(HCD_START_PC_READY as int, Z_INDEX_EDITOR as int) =~= s.subrange(
        HEADER_LEN + ALIGNED_START_IN_MIDDLE,
        PS4_SIZE - 1 - MISSING_LEN,
    ));
    assert(e[Z_INDEX_EDITOR as int] == s[PS4_SIZE - 1]);

    assert(inv_middle(e, flag, lf) =~= s.subrange(HEADER_LEN as int, PS4_SIZE - 1));
    assert(inv_console(e, flag, lf) =~= s);
}

/// Round-trip law without spill: a full-size console buffer with both
/// sentinels whose trimmed excess is all zero comes back byte-for-byte from
/// the inverse transform, with no spill data involved and the marker's flag
/// left at "no spill".
pub proof fn lemma_round_trip_no_spill(s: Seq<u8>)
    requires
        s.len() == PS4_SIZE,
        magic_at(s, MD5_HEADER_SIZE as int),
        magic_at(s, HEADER_LEN as int),
        all_zero_seq(fwd_removed(s)),
    ensures
        fwd_ok(s),
        !fwd_spill(s),
        marker_decode(fwd_editor(s)) == Some((VER_V2, FLAG_NO_LEFTOVERS)),
        looks_v2_spec(fwd_editor(s)),
        inv_ok(fwd_editor(s)),
        inv_console(fwd_editor(s), false, None) == s,
{
    let pff = fwd_prefix_full(s, FLAG_NO_LEFTOVERS);
    assert(pff.len() == s.len() - 9);
    assert(fwd_removed(s).len() == MISSING_LEN);
    assert(recovered_seq(false, None) =~= fwd_removed(s));
    lemma_round_trip_core(s, false, None);
}

/// Round-trip law with spill: a full-size console buffer with both
/// sentinels whose trimmed excess holds a non-zero byte makes the forward
/// transform hand those bytes out and set the marker's flag; the inverse
/// transform, given them back, rebuilds the buffer byte-for-byte.
pub proof fn lemma_round_trip_with_spill(s: Seq<u8>)
    requires
        s.len() == PS4_SIZE,
        magic_at(s, MD5_HEADER_SIZE as int),
        magic_at(s, HEADER_LEN as int),
        !all_zero_seq(fwd_removed(s)),
    ensures
        fwd_ok(s),
        fwd_spill(s),
        fwd_removed(s).len() == MISSING_LEN,
        marker_decode(fwd_editor(s)) == Some((VER_V2, FLAG_LEFTOVERS)),
        looks_v2_spec(fwd_editor(s)),
        inv_ok(fwd_editor(s)),
        inv_console(fwd_editor(s), true, Some(fwd_removed(s))) == s,
{
    let pff = fwd_prefix_full(s, FLAG_NO_LEFTOVERS);
    assert(pff.len() == s.len() - 9);
    assert(fwd_removed(s).len() == MISSING_LEN);
    assert(recovered_seq(true, Some(fwd_removed(s))) =~= fwd_removed(s));
    lemma_round_trip_core(s, true, Some(fwd_removed(s)));
}

/// Exact-fit law: a console buffer sized so that the assembled prefix
/// exactly meets its required length is neither padded nor trimmed, and the
/// marker's flag stays at "no spill".
pub proof fn lemma_exact_fit(s: Seq<u8>)
    requires
        s.len() == REQUIRED_PREFIX_LEN + 9,
    ensures
        fwd_prefix_full(s, FLAG_NO_LEFTOVERS).len() == REQUIRED_PREFIX_LEN,
        fwd_removed(s) == Seq::<u8>::empty(),
        !fwd_spill(s),
        fwd_flag(s) == FLAG_NO_LEFTOVERS,
        fwd_prefix(s) == fwd_prefix_full(s, FLAG_NO_LEFTOVERS),
{
    let pff = fwd_prefix_full(s, FLAG_NO_LEFTOVERS);
    assert(pff.len() == s.len() - 9);
    assert(fwd_prefix(s) =~= pff);
}

} // verus!
