//! Byte-level helpers shared by the writing and parsing sides of the engine:
//! the wire constants, ASCII case-insensitive comparison, bounded in-place
//! buffer writes, line-terminator scanning, and a small fixed-capacity vector.

use vstd::prelude::*;

verus! {

// ---------------------------------------------------------------- constants

/// The single space separating the tokens of a request or status line.
pub open spec fn sp_bytes() -> Seq<u8> {
    seq![32u8]
}

/// The CR LF pair ending every line of a message head.
pub open spec fn crlf_bytes() -> Seq<u8> {
    seq![13u8, 10u8]
}

/// The separator written between a header name and its value.
pub open spec fn header_sep_bytes() -> Seq<u8> {
    seq![58u8, 32u8]
}

pub fn push_sp(v: &mut Vec<u8>)
    ensures
        final(v)@ == old(v)@ + sp_bytes(),
{
    v.push(32u8);
    assert(final(v)@ =~= old(v)@ + sp_bytes());
}

pub fn push_crlf(v: &mut Vec<u8>)
    ensures
        final(v)@ == old(v)@ + crlf_bytes(),
{
    v.push(13u8);
    v.push(10u8);
    assert(final(v)@ =~= old(v)@ + crlf_bytes());
}

pub fn push_header_sep(v: &mut Vec<u8>)
    ensures
        final(v)@ == old(v)@ + header_sep_bytes(),
{
    v.push(58u8);
    v.push(32u8);
    assert(final(v)@ =~= old(v)@ + header_sep_bytes());
}

/// Appends a borrowed byte slice to a growing vector.
pub fn push_slice(v: &mut Vec<u8>, s: &[u8])
    ensures
        final(v)@ == old(v)@ + s@,
{
    let mut i: usize = 0;
    while i < s.len()
        invariant
            i <= s.len(),
            v@ == old(v)@ + s@.subrange(0, i as int),
        decreases s.len() - i,
    {
        v.push(s[i]);
        i = i + 1;
        assert(v@ =~= old(v)@ + s@.subrange(0, i as int));
    }
    assert(final(v)@ =~= old(v)@ + s@);
}

// ------------------------------------------------------- case-insensitivity

/// ASCII lower-casing of one byte; all other bytes are untouched.
pub open spec fn lower_byte(b: u8) -> u8 {
    if 65u8 <= b && b <= 90u8 {
        (b + 32) as u8
    } else {
        b
    }
}

/// Equality of two byte strings up to ASCII case.
pub open spec fn eq_nocase(a: Seq<u8>, b: Seq<u8>) -> bool {
    a.len() == b.len() && (forall|i: int|
        0 <= i < a.len() ==> lower_byte(a[i]) == lower_byte(b[i]))
}

fn to_lower(b: u8) -> (r: u8)
    ensures
        r == lower_byte(b),
{
    if 65u8 <= b && b <= 90u8 {
        b + 32
    } else {
        b
    }
}

/// Compares two byte strings ignoring ASCII case.
pub fn bytes_eq_nocase(a: &[u8], b: &[u8]) -> (r: bool)
    ensures
        r == eq_nocase(a@, b@),
{
    if a.len() != b.len() {
        return false;
    }
    let mut i: usize = 0;
    while i < a.len()
        invariant
            i <= a.len(),
            a@.len() == b@.len(),
            forall|j: int| 0 <= j < i ==> lower_byte(a@[j]) == lower_byte(b@[j]),
        decreases a.len() - i,
    {
        if to_lower(a[i]) != to_lower(b[i]) {
            return false;
        }
        i = i + 1;
    }
    true
}

/// Compares two byte strings for exact equality.
pub fn bytes_eq(a: &[u8], b: &[u8]) -> (r: bool)
    ensures
        r == (a@ == b@),
{
    if a.len() != b.len() {
        return false;
    }
    let mut i: usize = 0;
    while i < a.len()
        invariant
            i <= a.len(),
            a@.len() == b@.len(),
            forall|j: int| 0 <= j < i ==> a@[j] == b@[j],
        decreases a.len() - i,
    {
        if a[i] != b[i] {
            return false;
        }
        i = i + 1;
    }
    assert(a@ =~= b@);
    true
}

// ------------------------------------------------------------ fixed writes

/// Overwrites `out[at .. at + data.len()]` with `data`, touching nothing
/// else; reports `false`, and leaves `out` untouched, when the range does
/// not fit. The length of `out` never changes: this is a bounded in-place
/// write, not an append.
pub fn write_range(out: &mut Vec<u8>, at: usize, data: &Vec<u8>) -> (ok: bool)
    requires
        at <= old(out).len(),
    ensures
        final(out)@.len() == old(out)@.len(),
        ok <==> at + data@.len() <= old(out)@.len(),
        ok ==> final(out)@ == old(out)@.subrange(0, at as int) + data@ + old(out)@.skip(
            at + data@.len(),
        ),
        !ok ==> final(out)@ == old(out)@,
{
    if data.len() > out.len() - at {
        return false;
    }
    let cap: usize = out.len();
    let mut i: usize = 0;
    while i < data.len()
        invariant
            i <= data.len(),
            at + data@.len() <= cap,
            out@.len() == cap,
            out@.len() == old(out)@.len(),
            forall|j: int| 0 <= j < out@.len() && !(at <= j < at + i) ==> out@[j] == old(out)@[j],
            forall|j: int| 0 <= j < i ==> out@[at + j] == data@[j],
        decreases data.len() - i,
    {
        out.set(at + i, data[i]);
        i = i + 1;
    }
    assert(final(out)@ =~= old(out)@.subrange(0, at as int) + data@ + old(out)@.skip(
        at + data@.len(),
    ));
    true
}

// ------------------------------------------------------------ line scanning

/// A CR LF pair starts at index `i` of `s`.
pub open spec fn is_crlf_at(s: Seq<u8>, i: int) -> bool {
    0 <= i && i + 1 < s.len() && s[i] == 13u8 && s[i + 1] == 10u8
}

/// `s` holds a complete line terminator somewhere.
pub open spec fn has_crlf(s: Seq<u8>) -> bool {
    exists|i: int| is_crlf_at(s, i)
}

/// The CR LF pair at `i` is the first one in `s`.
pub open spec fn is_first_crlf_at(s: Seq<u8>, i: int) -> bool {
    is_crlf_at(s, i) && (forall|j: int| 0 <= j < i ==> !is_crlf_at(s, j))
}

/// The index one past the first line terminator of `s`: the length of the
/// first complete line, terminator included.
pub open spec fn first_line_end(s: Seq<u8>) -> Option<int> {
    if has_crlf(s) {
        Some((choose|i: int| is_first_crlf_at(s, i)) + 2)
    } else {
        None
    }
}

pub proof fn lemma_first_crlf_unique(s: Seq<u8>, i: int, j: int)
    requires
        is_first_crlf_at(s, i),
        is_first_crlf_at(s, j),
    ensures
        i == j,
{
    if i < j {
        assert(is_crlf_at(s, i));
    } else if j < i {
        assert(is_crlf_at(s, j));
    }
}

/// Finds the first line terminator of `s`.
pub fn find_crlf(s: &[u8]) -> (r: Option<usize>)
    ensures
        r is None ==> !has_crlf(s@),
        r matches Some(i) ==> is_first_crlf_at(s@, i as int),
        r matches Some(i) ==> first_line_end(s@) == Some(i + 2 as int),
{
    if s.len() < 2 {
        return None;
    }
    let n: usize = s.len();
    let mut i: usize = 0;
    while i < n - 1
        invariant
            n == s@.len(),
            n >= 2,
            i <= n - 1,
            forall|j: int| 0 <= j < i ==> !is_crlf_at(s@, j),
        decreases n - i,
    {
        if s[i] == 13u8 && s[i + 1] == 10u8 {
            proof {
                assert(is_first_crlf_at(s@, i as int));
                let k = choose|k: int| is_first_crlf_at(s@, k);
                lemma_first_crlf_unique(s@, i as int, k);
            }
            return Some(i);
        }
        i = i + 1;
    }
    assert(forall|j: int| is_crlf_at(s@, j) ==> 0 <= j < i);
    None
}

/// A blank line — the end of a message head — starts at index `i` of `s`.
pub open spec fn is_head_end_at(s: Seq<u8>, i: int) -> bool {
    0 <= i && i + 3 < s.len() && s[i] == 13u8 && s[i + 1] == 10u8 && s[i + 2] == 13u8 && s[i
        + 3] == 10u8
}

/// `s` holds a complete message head terminator somewhere.
pub open spec fn has_head_end(s: Seq<u8>) -> bool {
    exists|i: int| is_head_end_at(s, i)
}

/// The head terminator at `i` is the first one in `s`.
pub open spec fn is_first_head_end_at(s: Seq<u8>, i: int) -> bool {
    is_head_end_at(s, i) && (forall|j: int| 0 <= j < i ==> !is_head_end_at(s, j))
}

/// The index one past the first head terminator of `s`: the length of the
/// complete message head, blank line included.
pub open spec fn first_head_end(s: Seq<u8>) -> Option<int> {
    if has_head_end(s) {
        Some((choose|i: int| is_first_head_end_at(s, i)) + 4)
    } else {
        None
    }
}

pub proof fn lemma_first_head_end_unique(s: Seq<u8>, i: int, j: int)
    requires
        is_first_head_end_at(s, i),
        is_first_head_end_at(s, j),
    ensures
        i == j,
{
    if i < j {
        assert(is_head_end_at(s, i));
    } else if j < i {
        assert(is_head_end_at(s, j));
    }
}

/// Finds the first blank line ending a message head in `s`.
pub fn find_head_end(s: &[u8]) -> (r: Option<usize>)
    ensures
        r is None ==> !has_head_end(s@),
        r matches Some(i) ==> is_first_head_end_at(s@, i as int),
        r matches Some(i) ==> first_head_end(s@) == Some(i + 4 as int),
{
    if s.len() < 4 {
        return None;
    }
    let n: usize = s.len();
    let mut i: usize = 0;
    while i < n - 3
        invariant
            n == s@.len(),
            n >= 4,
            i <= n - 3,
            forall|j: int| 0 <= j < i ==> !is_head_end_at(s@, j),
        decreases n - i,
    {
        if s[i] == 13u8 && s[i + 1] == 10u8 && s[i + 2] == 13u8 && s[i + 3] == 10u8 {
            proof {
                assert(is_first_head_end_at(s@, i as int));
                let k = choose|k: int| is_first_head_end_at(s@, k);
                lemma_first_head_end_unique(s@, i as int, k);
            }
            return Some(i);
        }
        i = i + 1;
    }
    assert(forall|j: int| is_head_end_at(s@, j) ==> 0 <= j < i);
    None
}

// --------------------------------------------------------- bounded storage

/// A vector bounded by a compile-time capacity, used to record close
/// reasons without growing past a fixed footprint. Appends keep insertion
/// order and allow duplicates.
pub struct ArrayVec<T, const N: usize> {
    items: Vec<T>,
}

impl<T, const N: usize> ArrayVec<T, N> {
    /// The recorded items, in insertion order.
    pub closed spec fn view(&self) -> Seq<T> {
        self.items@
    }

    /// The recorded items never outgrow the capacity.
    pub closed spec fn wf(&self) -> bool {
        self.items@.len() <= N
    }

    pub fn new() -> (r: ArrayVec<T, N>)
        ensures
            r.wf(),
            r.view() == Seq::<T>::empty(),
    {
        ArrayVec { items: Vec::new() }
    }

    pub fn len(&self) -> (r: usize)
        ensures
            r == self.view().len(),
    {
        self.items.len()
    }

    /// Appends one item. The caller must know the vector is not full: a
    /// full vector is a usage defect, not a runtime condition.
    pub fn push(&mut self, item: T)
        requires
            old(self).wf(),
            old(self).view().len() < N,
        ensures
            final(self).wf(),
            final(self).view() == old(self).view().push(item),
    {
        self.items.push(item);
    }

    pub fn get(&self, i: usize) -> (r: &T)
        requires
            i < self.view().len(),
        ensures
            *r == self.view()[i as int],
    {
        &self.items[i]
    }
}

} // verus!
