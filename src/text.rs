//! Turning register bytes into text: cut at the first NUL byte, then decode
//! as UTF-8, with a fallback for bytes that are not valid UTF-8.
use vstd::prelude::*;
use crate::bits::{byte_of, register_byte};

verus! {

/// The text that UTF-8 decoding gives for `b`, or `None` when `b` is not
/// valid UTF-8.
pub uninterp spec fn utf8_text(b: Seq<u8>) -> Option<Seq<char>>;

/// Relies on `std::str::from_utf8`: it succeeds exactly on valid UTF-8, and
/// the text it gives depends on the bytes alone.
#[verifier::external_body]
fn decode_utf8(b: &[u8]) -> (r: Option<String>)
    ensures
        r matches Some(s) ==> utf8_text(b@) == Some(s@),
        r is None ==> utf8_text(b@) is None,
{
    match std::str::from_utf8(b) {
        Ok(s) => Some(s.to_owned()),
        Err(_) => None,
    }
}

/// `n` is the length of `b` before its first NUL byte.
pub open spec fn is_nul_cut(b: Seq<u8>, n: int) -> bool {
    &&& 0 <= n <= b.len()
    &&& forall|j: int| 0 <= j < n ==> b[j] != 0
    &&& n == b.len() || b[n] == 0
}

/// `b` up to (not including) its first NUL byte.
pub open spec fn until_nul(b: Seq<u8>) -> Seq<u8> {
    b.take(choose|n: int| is_nul_cut(b, n))
}

/// The text of `b` cut at its first NUL, or `fallback` if that is not UTF-8.
pub open spec fn text_of(b: Seq<u8>, fallback: Seq<char>) -> Seq<char> {
    match utf8_text(until_nul(b)) {
        Some(t) => t,
        None => fallback,
    }
}

/// The text of `b` cut at its first NUL byte, or `fallback` if those bytes
/// are not valid UTF-8.
pub fn text_from_bytes(b: &Vec<u8>, fallback: &str) -> (r: String)
    ensures
        r@ == text_of(b@, fallback@),
{
    let mut cut: Vec<u8> = Vec::new();
    let mut n: usize = 0;
    while n < b.len() && b[n] != 0
        invariant
            0 <= n <= b.len(),
            forall|j: int| 0 <= j < n ==> b@[j] != 0,
            cut@ == b@.take(n as int),
        decreases b.len() - n,
    {
        cut.push(b[n]);
        assert(cut@ =~= b@.take(n as int + 1));
        n = n + 1;
    }
    proof {
        assert(is_nul_cut(b@, n as int));
        let c = choose|c: int| is_nul_cut(b@, c);
        if c < n as int {
            assert(b@[c] != 0);
        } else if c > n as int {
            assert(b@[n as int] != 0);
        }
        assert(until_nul(b@) == cut@);
    }
    match decode_utf8(cut.as_slice()) {
        Some(s) => s,
        None => fallback.to_owned(),
    }
}

/// The bytes of `regs`, each register least significant byte first.
pub open spec fn regs_bytes(regs: Seq<u32>) -> Seq<u8> {
    Seq::new(4 * regs.len(), |i: int| byte_of(regs[i / 4], i % 4))
}

/// The bytes of `regs`, each register least significant byte first.
pub fn registers_to_bytes(regs: &Vec<u32>) -> (r: Vec<u8>)
    requires
        regs.len() < 0x1000,
    ensures
        r@ == regs_bytes(regs@),
{
    let mut out: Vec<u8> = Vec::new();
    let mut i: usize = 0;
    while i < 4 * regs.len()
        invariant
            0 <= i <= 4 * regs.len(),
            regs.len() < 0x1000,
            out@ == regs_bytes(regs@).take(i as int),
        decreases 4 * regs.len() - i,
    {
        let b = register_byte(regs[i / 4], (i % 4) as u32);
        out.push(b);
        assert(out@ =~= regs_bytes(regs@).take(i as int + 1));
        i = i + 1;
    }
    assert(out@ =~= regs_bytes(regs@));
    out
}

} // verus!
