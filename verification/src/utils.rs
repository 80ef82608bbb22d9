//! Small byte-buffer helpers shared by the transforms, and the digest used
//! for human-readable reporting.

use vstd::prelude::*;
use vstd::string::StringExecFns;

verus! {

/// The 20-byte digest that the sha1 crate computes for the given bytes.
/// It is a function of the input alone; nothing more is assumed of it.
pub uninterp spec fn sha1_of(bytes: Seq<u8>) -> Seq<u8>;

/// The lowercase hexadecimal digit for a value below sixteen.
pub open spec fn hex_char(n: int) -> char {
    if n == 0 {
        '0'
    } else if n == 1 {
        '1'
    } else if n == 2 {
        '2'
    } else if n == 3 {
        '3'
    } else if n == 4 {
        '4'
    } else if n == 5 {
        '5'
    } else if n == 6 {
        '6'
    } else if n == 7 {
        '7'
    } else if n == 8 {
        '8'
    } else if n == 9 {
        '9'
    } else if n == 10 {
        'a'
    } else if n == 11 {
        'b'
    } else if n == 12 {
        'c'
    } else if n == 13 {
        'd'
    } else if n == 14 {
        'e'
    } else {
        'f'
    }
}

/// The lowercase hexadecimal rendering of a byte sequence: two digits per
/// byte, high nibble first.
pub open spec fn hex_str_of(bytes: Seq<u8>) -> Seq<char> {
    Seq::new(
        2 * bytes.len(),
        |i: int|
            if i % 2 == 0 {
                hex_char((bytes[i / 2] as int) / 16)
            } else {
                hex_char((bytes[i / 2] as int) % 16)
            },
    )
}

/// Relies on sha1::Sha1 through its Digest trait (new, update, finalize):
/// the 20-byte digest is computed from the input bytes alone.
#[verifier::external_body]
fn sha1_digest(bytes: &[u8]) -> (r: [u8; 20])
    ensures
        r@ == sha1_of(bytes@),
{
    let mut hasher = <sha1::Sha1 as sha1::Digest>::new();
    sha1::Digest::update(&mut hasher, bytes);
    sha1::Digest::finalize(hasher).into()
}

/// The one-character string for a hexadecimal digit value.
fn hex_nibble(n: u8) -> (r: &'static str)
    requires
        n < 16,
    ensures
        r@ == seq![hex_char(n as int)],
{
    proof {
        reveal_strlit("0");
        reveal_strlit("1");
        reveal_strlit("2");
        reveal_strlit("3");
        reveal_strlit("4");
        reveal_strlit("5");
        reveal_strlit("6");
        reveal_strlit("7");
        reveal_strlit("8");
        reveal_strlit("9");
        reveal_strlit("a");
        reveal_strlit("b");
        reveal_strlit("c");
        reveal_strlit("d");
        reveal_strlit("e");
        reveal_strlit("f");
    }
    let r = match n {
        0 => "0",
        1 => "1",
        2 => "2",
        3 => "3",
        4 => "4",
        5 => "5",
        6 => "6",
        7 => "7",
        8 => "8",
        9 => "9",
        10 => "a",
        11 => "b",
        12 => "c",
        13 => "d",
        14 => "e",
        _ => "f",
    };
    proof {
        assert(r@ =~= seq![hex_char(n as int)]);
    }
    r
}

/// The lowercase hexadecimal rendering of the digest of `bytes`, forty
/// characters, used for human-readable reporting.
pub fn sha1_hex(bytes: &[u8]) -> (r: String)
    ensures
        r@ == hex_str_of(sha1_of(bytes@)),
{
    let digest = sha1_digest(bytes);
    let mut r = String::new();
    let mut i: usize = 0;
    while i < 20
        invariant
            0 <= i <= 20,
            digest@ == sha1_of(bytes@),
            digest@.len() == 20,
            r@ == hex_str_of(digest@.take(i as int)),
        decreases 20 - i,
    {
        let b = digest[i];
        r.append(hex_nibble(b / 16));
        r.append(hex_nibble(b % 16));
        proof {
            assert(r@ =~= hex_str_of(digest@.take(i + 1)));
        }
        i += 1;
    }
    proof {
        assert(digest@.take(20) =~= digest@);
    }
    r
}

/// A sequence of `n` zero bytes.
pub open spec fn zero_seq(n: nat) -> Seq<u8> {
    Seq::new(n, |i: int| 0u8)
}

/// Every byte of `s` is zero.
pub open spec fn all_zero_seq(s: Seq<u8>) -> bool {
    forall|i: int| 0 <= i < s.len() ==> s[i] == 0u8
}

/// True exactly when every byte of `bytes` is zero.
pub fn all_zero(bytes: &[u8]) -> (r: bool)
    ensures
        r == all_zero_seq(bytes@),
{
    let mut i: usize = 0;
    while i < bytes.len()
        invariant
            0 <= i <= bytes@.len(),
            forall|j: int| 0 <= j < i ==> bytes@[j] == 0u8,
        decreases bytes@.len() - i,
    {
        if bytes[i] != 0 {
            return false;
        }
        i += 1;
    }
    true
}

/// Appends `count` zero bytes to the end of `dst`.
pub(crate) fn push_zeros(dst: &mut Vec<u8>, count: usize)
    ensures
        final(dst)@ == old(dst)@ + zero_seq(count as nat),
{
    let mut i: usize = 0;
    while i < count
        invariant
            0 <= i <= count,
            dst@ == old(dst)@ + zero_seq(i as nat),
        decreases count - i,
    {
        dst.push(0);
        proof {
            assert(dst@ =~= old(dst)@ + zero_seq((i + 1) as nat));
        }
        i += 1;
    }
}

/// Appends `src[from..to]` to the end of `dst`.
pub(crate) fn push_range(dst: &mut Vec<u8>, src: &[u8], from: usize, to: usize)
    requires
        from <= to <= src@.len(),
    ensures
        final(dst)@ == old(dst)@ + src@.subrange(from as int, to as int),
{
    let mut i: usize = from;
    proof {
        assert(dst@ =~= old(dst)@ + src@.subrange(from as int, from as int));
    }
    while i < to
        invariant
            from <= i <= to <= src@.len(),
            dst@ == old(dst)@ + src@.subrange(from as int, i as int),
        decreases to - i,
    {
        dst.push(src[i]);
        proof {
            assert(dst@ =~= old(dst)@ + src@.subrange(from as int, (i + 1) as int));
        }
        i += 1;
    }
}

/// Returns `src` with `count` zero bytes appended.
pub fn append_zeros(src: Vec<u8>, count: usize) -> (r: Vec<u8>)
    ensures
        r@ == src@ + zero_seq(count as nat),
{
    let mut r = src;
    push_zeros(&mut r, count);
    r
}

} // verus!
