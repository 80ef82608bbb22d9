//! The 8-byte in-band marker that identifies the editor layout, and the
//! magic-pattern checks used by both transforms.
//!
//! The marker sits at a fixed offset inside the editor-layout prefix:
//! five fixed identifying bytes, one flag byte (spilled data present or
//! not), one more fixed byte, and one version byte.

use vstd::prelude::*;

use crate::constants::EDITOR_SIZE;
use crate::constants::FLAG_LEFTOVERS;
use crate::constants::FLAG_NO_LEFTOVERS;
use crate::constants::MAGIC0;
use crate::constants::MAGIC1;
use crate::constants::MAGIC2;
use crate::constants::MAGIC3;
use crate::constants::MARK0;
use crate::constants::MARK1;
use crate::constants::MARK2;
use crate::constants::MARK3;
use crate::constants::MARK4;
use crate::constants::MARK6;
use crate::constants::MARKER_OFFSET;
use crate::constants::SAV_START_EDITOR;
use crate::constants::VER_V2;

verus! {

/// The magic pattern is present at byte offset `off` of `s`.
pub open spec fn magic_at(s: Seq<u8>, off: int) -> bool {
    &&& 0 <= off
    &&& off + 4 <= s.len()
    &&& s[off] == MAGIC0
    &&& s[off + 1] == MAGIC1
    &&& s[off + 2] == MAGIC2
    &&& s[off + 3] == MAGIC3
}

/// The 8 marker bytes for a given version and spill-flag byte.
pub open spec fn marker_seq(version: u8, flag: u8) -> Seq<u8> {
    seq![MARK0, MARK1, MARK2, MARK3, MARK4, flag, MARK6, version]
}

/// What reading the marker at its fixed offset yields: `Some((version,
/// flag))` when every fixed byte matches and the flag and version bytes are
/// members of their enumerated sets, `None` otherwise.
pub open spec fn marker_decode(s: Seq<u8>) -> Option<(u8, u8)> {
    let o = MARKER_OFFSET as int;
    if s.len() >= MARKER_OFFSET + 8 && s[o] == MARK0 && s[o + 1] == MARK1 && s[o + 2] == MARK2
        && s[o + 3] == MARK3 && s[o + 4] == MARK4 && s[o + 6] == MARK6 && (s[o + 5]
        == FLAG_NO_LEFTOVERS || s[o + 5] == FLAG_LEFTOVERS) && s[o + 7] == VER_V2 {
        Some((s[o + 7], s[o + 5]))
    } else {
        None
    }
}

/// A buffer is structurally plausible as a supported editor-layout save:
/// a well-formed marker, the exact editor size, and magic at the sentinel
/// block's position counted from the end.
pub open spec fn looks_v2_spec(s: Seq<u8>) -> bool {
    &&& marker_decode(s) is Some
    &&& s.len() == EDITOR_SIZE
    &&& magic_at(s, SAV_START_EDITOR as int)
}

/// Magic is present at offset `offset` of `data`; false when the four bytes
/// would not fit.
pub fn has_magic_at(data: &[u8], offset: usize) -> (r: bool)
    ensures
        r == magic_at(data@, offset as int),
{
    if data.len() < 4 || offset > data.len() - 4 {
        return false;
    }
    data[offset] == MAGIC0 && data[offset + 1] == MAGIC1 && data[offset + 2] == MAGIC2 && data[
        offset + 3
    ] == MAGIC3
}

/// Magic is present at both console-layout sentinel offsets: the start of
/// the sentinel block and one block-size further in.
pub fn has_dual_magic(data: &[u8]) -> (r: bool)
    ensures
        r == (magic_at(data@, 0x20) && magic_at(data@, 0xA0)),
{
    data.len() >= 0xA4 && has_magic_at(data, 0x20) && has_magic_at(data, 0xA0)
}

/// Lays out the 8 marker bytes for the given version and spill-flag byte.
pub fn make_marker(version: u8, leftovers_flag: u8) -> (r: [u8; 8])
    ensures
        r@ == marker_seq(version, leftovers_flag),
{
    let r = [MARK0, MARK1, MARK2, MARK3, MARK4, leftovers_flag, MARK6, version];
    proof {
        assert(r@ =~= marker_seq(version, leftovers_flag));
    }
    r
}

/// Reads the marker at its fixed offset: the single gate for "is this a
/// recognized, well-formed marker". Returns `(version, flag)` or `None`.
pub fn try_read_marker(d: &[u8]) -> (r: Option<(u8, u8)>)
    ensures
        r == marker_decode(d@),
{
    if d.len() < MARKER_OFFSET + 8 {
        return None;
    }
    let o = MARKER_OFFSET;
    if d[o] != MARK0 {
        return None;
    }
    if d[o + 1] != MARK1 {
        return None;
    }
    if d[o + 2] != MARK2 {
        return None;
    }
    if d[o + 3] != MARK3 {
        return None;
    }
    if d[o + 4] != MARK4 {
        return None;
    }
    if d[o + 6] != MARK6 {
        return None;
    }
    let leftovers_flag = d[o + 5];
    let version = d[o + 7];
    let flag_ok = leftovers_flag == FLAG_NO_LEFTOVERS || leftovers_flag == FLAG_LEFTOVERS;
    let ver_ok = version == VER_V2;
    if flag_ok && ver_ok {
        Some((version, leftovers_flag))
    } else {
        None
    }
}

/// A well-formed marker is present at the fixed offset.
pub fn has_any_marker_at_08(d: &[u8]) -> (r: bool)
    ensures
        r == (marker_decode(d@) is Some),
{
    try_read_marker(d).is_some()
}

/// The structural plausibility check behind auto-detection: a decoded
/// marker of the supported version, the exact editor size, and magic at the
/// sentinel block's expected position from the end of the buffer.
pub fn looks_like_v2(d: &[u8]) -> (r: bool)
    ensures
        r == looks_v2_spec(d@),
{
    if let Some((ver, _flag)) = try_read_marker(d) {
        if ver != VER_V2 {
            return false;
        }
        if d.len() != EDITOR_SIZE {
            return false;
        }
        has_magic_at(d, SAV_START_EDITOR)
    } else {
        false
    }
}

/// Marker round-trip law: a buffer that carries the encoded marker bytes
/// for a supported version and an enumerated flag at the marker offset
/// decodes to exactly that version and flag.
pub proof fn lemma_marker_round_trip(d: Seq<u8>, version: u8, flag: u8)
    requires
        d.len() >= MARKER_OFFSET + 8,
        d.subrange(MARKER_OFFSET as int, MARKER_OFFSET + 8) == marker_seq(version, flag),
        version == VER_V2,
        flag == FLAG_NO_LEFTOVERS || flag == FLAG_LEFTOVERS,
    ensures
        marker_decode(d) == Some((version, flag)),
{
    let o = MARKER_OFFSET as int;
    let m = d.subrange(o, o + 8);
    assert(d[o] == m[0]);
    assert(d[o + 1] == m[1]);
    assert(d[o + 2] == m[2]);
    assert(d[o + 3] == m[3]);
    assert(d[o + 4] == m[4]);
    assert(d[o + 5] == m[5]);
    assert(d[o + 6] == m[6]);
    assert(d[o + 7] == m[7]);
}

/// Corruption law: if any of the six fixed marker bytes differs from its
/// required value, the marker is rejected as absent, never read as some
/// other version.
pub proof fn lemma_corrupted_marker_rejected(d: Seq<u8>, i: int)
    requires
        0 <= i < 8,
        i != 5 && i != 7,
        d.len() >= MARKER_OFFSET + 8,
        d[MARKER_OFFSET + i] != marker_seq(VER_V2, FLAG_NO_LEFTOVERS)[i],
    ensures
        marker_decode(d) is None,
{
}

} // verus!
