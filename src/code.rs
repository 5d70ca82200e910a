//! A Cangjie code: the sequence of radicals typed for one character.

use vstd::prelude::*;
use vstd::string::*;
use std::borrow::Borrow;
use std::cmp::Ordering;
use std::ops::Deref;
use smallvec::SmallVec;

use crate::radical::{
    CangjieRadical, is_radical_code, is_radical_glyph, radical_of_code, radical_of_glyph,
};

verus! {

/// A `SmallVec` of radicals, kept inline up to five; Verus sees only what
/// `radical_seq` says of it.
#[verifier::external_body]
#[derive(Debug, PartialEq, Eq, PartialOrd, Ord, Hash)]
pub struct RadicalVec {
    inner: SmallVec<[CangjieRadical; 5]>,
}

/// The radicals that a small vector holds, in order.
pub uninterp spec fn radical_seq(v: RadicalVec) -> Seq<CangjieRadical>;

/// Relies on `SmallVec::new`: a new vector is empty.
#[verifier::external_body]
fn radicals_new() -> (r: RadicalVec)
    ensures
        radical_seq(r) == Seq::<CangjieRadical>::empty(),
{
    RadicalVec { inner: SmallVec::new() }
}

/// Relies on `SmallVec::push`: appends one radical at the end.
#[verifier::external_body]
fn radicals_push(v: &mut RadicalVec, r: CangjieRadical)
    ensures
        radical_seq(*final(v)) == radical_seq(*old(v)).push(r),
{
    v.inner.push(r)
}

/// Relies on `SmallVec::len`: the number of radicals held.
#[verifier::external_body]
fn radicals_len(v: &RadicalVec) -> (r: usize)
    ensures
        r == radical_seq(*v).len(),
{
    v.inner.len()
}

/// Relies on `SmallVec::as_slice`: a slice of the radicals, in order.
#[verifier::external_body]
fn radicals_slice(v: &RadicalVec) -> (r: &[CangjieRadical])
    ensures
        r@ == radical_seq(*v),
{
    v.inner.as_slice()
}

/// Relies on `SmallVec::as_mut_slice` and slice indexing: replaces the
/// radical at position `i`.
#[verifier::external_body]
fn radicals_set(v: &mut RadicalVec, i: usize, r: CangjieRadical)
    requires
        i < radical_seq(*old(v)).len(),
    ensures
        radical_seq(*final(v)) == radical_seq(*old(v)).update(i as int, r),
{
    v.inner.as_mut_slice()[i] = r;
}

/// Code that can be used to type a character.
#[derive(Debug, Eq, Ord, Hash)]
pub struct CangjieCode(RadicalVec);

impl View for CangjieCode {
    type V = Seq<CangjieRadical>;

    closed spec fn view(&self) -> Seq<CangjieRadical> {
        radical_seq(self.0)
    }
}

/// The radicals whose codes are `codes`, in order.
pub open spec fn decode_codes(codes: Seq<u8>) -> Seq<CangjieRadical> {
    codes.map_values(|c: u8| radical_of_code(c))
}

/// The radicals whose glyphs are `glyphs`, in order.
pub open spec fn decode_glyphs(glyphs: Seq<char>) -> Seq<CangjieRadical> {
    glyphs.map_values(|c: char| radical_of_glyph(c))
}

/// The codes of `radicals` as text, one ASCII letter each.
pub open spec fn codes_text(radicals: Seq<CangjieRadical>) -> Seq<char> {
    radicals.map_values(|r: CangjieRadical| r.code() as char)
}

/// The glyphs of `radicals` as text.
pub open spec fn glyphs_text(radicals: Seq<CangjieRadical>) -> Seq<char> {
    radicals.map_values(|r: CangjieRadical| r.glyph())
}

/// Every byte of `codes` is a radical code.
pub open spec fn all_radical_codes(codes: Seq<u8>) -> bool {
    forall|i: int| 0 <= i < codes.len() ==> is_radical_code(#[trigger] codes[i])
}

/// Every character of `glyphs` is a radical glyph.
pub open spec fn all_radical_glyphs(glyphs: Seq<char>) -> bool {
    forall|i: int| 0 <= i < glyphs.len() ==> is_radical_glyph(#[trigger] glyphs[i])
}

impl CangjieCode {
    /// An empty code, holding no radicals yet.
    pub fn new() -> (r: Self)
        ensures
            r@ == Seq::<CangjieRadical>::empty(),
    {
        CangjieCode(radicals_new())
    }

    /// Parses a sequence of codes used by libcangjie (abcdefg…wxyz).
    #[must_use]
    pub fn from_codes(codes: &[u8]) -> (r: Self)
        requires
            all_radical_codes(codes@),
        ensures
            r@ == decode_codes(codes@),
    {
        let mut v = radicals_new();
        let mut i: usize = 0;
        while i < codes.len()
            invariant
                i <= codes@.len(),
                all_radical_codes(codes@),
                radical_seq(v) == decode_codes(codes@.subrange(0, i as int)),
            decreases codes@.len() - i,
        {
            let r = CangjieRadical::from_code(codes[i]);
            radicals_push(&mut v, r);
            i = i + 1;
            assert(codes@.subrange(0, i as int) == codes@.subrange(0, i - 1 as int).push(codes@[i - 1]));
        }
        assert(codes@.subrange(0, i as int) == codes@);
        CangjieCode(v)
    }

    /// Parses a sequence of radical glyphs (日月金木水火土…田難卜Ｚ).
    ///
    /// Following libcangjie, the glyph of `Z` is "Ｚ", not "重".
    #[must_use]
    pub fn from_radicals(radicals: &str) -> (r: Self)
        requires
            all_radical_glyphs(radicals@),
        ensures
            r@ == decode_glyphs(radicals@),
    {
        let n = radicals.unicode_len();
        let mut v = radicals_new();
        let mut i: usize = 0;
        while i < n
            invariant
                n == radicals@.len(),
                i <= n,
                all_radical_glyphs(radicals@),
                radical_seq(v) == decode_glyphs(radicals@.subrange(0, i as int)),
            decreases n - i,
        {
            let r = CangjieRadical::from_radical(radicals.get_char(i));
            radicals_push(&mut v, r);
            i = i + 1;
            assert(radicals@.subrange(0, i as int) == radicals@.subrange(0, i - 1 as int).push(radicals@[i - 1]));
        }
        assert(radicals@.subrange(0, i as int) == radicals@);
        CangjieCode(v)
    }

    /// The number of radicals.
    pub fn len(&self) -> (r: usize)
        ensures
            r == self@.len(),
    {
        radicals_len(&self.0)
    }

    /// Whether the code holds no radicals.
    pub fn is_empty(&self) -> (r: bool)
        ensures
            r == (self@.len() == 0),
    {
        radicals_len(&self.0) == 0
    }

    /// The radicals, in order, as a slice.
    pub fn as_slice(&self) -> (r: &[CangjieRadical])
        ensures
            r@ == self@,
    {
        radicals_slice(&self.0)
    }

    /// The radical at position `i`.
    pub fn get(&self, i: usize) -> (r: CangjieRadical)
        requires
            i < self@.len(),
        ensures
            r == self@[i as int],
    {
        radicals_slice(&self.0)[i]
    }

    /// Replaces the radical at position `i`.
    pub fn set(&mut self, i: usize, radical: CangjieRadical)
        requires
            i < old(self)@.len(),
        ensures
            final(self)@ == old(self)@.update(i as int, radical),
    {
        radicals_set(&mut self.0, i, radical)
    }

    /// Appends a radical at the end.
    pub fn push(&mut self, radical: CangjieRadical)
        ensures
            final(self)@ == old(self)@.push(radical),
    {
        radicals_push(&mut self.0, radical)
    }
}

/// Lexicographic order of two radical sequences, radical by radical in
/// alphabet order; a proper prefix comes first.
pub open spec fn radicals_cmp(a: Seq<CangjieRadical>, b: Seq<CangjieRadical>) -> Ordering
    decreases a.len(),
{
    if a.len() == 0 {
        if b.len() == 0 {
            Ordering::Equal
        } else {
            Ordering::Less
        }
    } else if b.len() == 0 {
        Ordering::Greater
    } else if a[0].code() < b[0].code() {
        Ordering::Less
    } else if a[0].code() > b[0].code() {
        Ordering::Greater
    } else {
        radicals_cmp(a.drop_first(), b.drop_first())
    }
}

impl PartialEq for CangjieCode {
    fn eq(&self, other: &CangjieCode) -> (r: bool) {
        let a = radicals_slice(&self.0);
        let b = radicals_slice(&other.0);
        if a.len() != b.len() {
            return false;
        }
        let mut i: usize = 0;
        while i < a.len()
            invariant
                a@ == self@,
                b@ == other@,
                a@.len() == b@.len(),
                i <= a@.len(),
                forall|j: int| 0 <= j < i ==> a@[j] == b@[j],
            decreases a@.len() - i,
        {
            if a[i] != b[i] {
                assert(a@[i as int] != b@[i as int]);
                return false;
            }
            i = i + 1;
        }
        assert(a@ == b@);
        true
    }
}

impl vstd::std_specs::cmp::PartialEqSpecImpl for CangjieCode {
    open spec fn obeys_eq_spec() -> bool {
        true
    }

    open spec fn eq_spec(&self, other: &CangjieCode) -> bool {
        self@ == other@
    }
}

impl PartialOrd for CangjieCode {
    fn partial_cmp(&self, other: &CangjieCode) -> (r: Option<Ordering>) {
        let a = radicals_slice(&self.0);
        let b = radicals_slice(&other.0);
        let mut i: usize = 0;
        assert(a@.skip(0) == a@);
        assert(b@.skip(0) == b@);
        while i < a.len() && i < b.len()
            invariant
                a@ == self@,
                b@ == other@,
                i <= a@.len(),
                i <= b@.len(),
                radicals_cmp(a@.skip(i as int), b@.skip(i as int)) == radicals_cmp(a@, b@),
            decreases a@.len() - i,
        {
            let x = a[i].to_code();
            let y = b[i].to_code();
            assert(a@.skip(i as int)[0] == a@[i as int]);
            assert(b@.skip(i as int)[0] == b@[i as int]);
            if x < y {
                return Some(Ordering::Less);
            } else if x > y {
                return Some(Ordering::Greater);
            }
            assert(a@.skip(i as int).drop_first() == a@.skip(i + 1));
            assert(b@.skip(i as int).drop_first() == b@.skip(i + 1));
            i = i + 1;
        }
        assert(a@.skip(i as int).len() == a@.len() - i);
        assert(b@.skip(i as int).len() == b@.len() - i);
        if i < a.len() {
            Some(Ordering::Greater)
        } else if i < b.len() {
            Some(Ordering::Less)
        } else {
            Some(Ordering::Equal)
        }
    }
}

impl vstd::std_specs::cmp::PartialOrdSpecImpl for CangjieCode {
    open spec fn obeys_partial_cmp_spec() -> bool {
        true
    }

    open spec fn partial_cmp_spec(&self, other: &CangjieCode) -> Option<Ordering> {
        Some(radicals_cmp(self@, other@))
    }
}

impl Clone for CangjieCode {
    fn clone(&self) -> (r: CangjieCode)
        ensures
            r@ == self@,
    {
        let a = radicals_slice(&self.0);
        let mut v = radicals_new();
        let mut i: usize = 0;
        while i < a.len()
            invariant
                i <= a@.len(),
                radical_seq(v) == a@.subrange(0, i as int),
            decreases a@.len() - i,
        {
            radicals_push(&mut v, a[i]);
            i = i + 1;
        }
        assert(a@.subrange(0, i as int) == a@);
        CangjieCode(v)
    }
}

impl Default for CangjieCode {
    fn default() -> (r: CangjieCode)
        ensures
            r@ == Seq::<CangjieRadical>::empty(),
    {
        CangjieCode::new()
    }
}

impl From<&[CangjieRadical]> for CangjieCode {
    fn from(value: &[CangjieRadical]) -> (r: CangjieCode)
        ensures
            r@ == value@,
    {
        let mut v = radicals_new();
        let mut i: usize = 0;
        while i < value.len()
            invariant
                i <= value@.len(),
                radical_seq(v) == value@.subrange(0, i as int),
            decreases value@.len() - i,
        {
            radicals_push(&mut v, value[i]);
            i = i + 1;
        }
        assert(value@.subrange(0, i as int) == value@);
        CangjieCode(v)
    }
}

impl vstd::std_specs::convert::FromSpecImpl<&[CangjieRadical]> for CangjieCode {
    /// Many small vectors hold the same radicals, so the result is stated
    /// over its view, in the `ensures` of `from`.
    open spec fn obeys_from_spec() -> bool {
        false
    }

    open spec fn from_spec(value: &[CangjieRadical]) -> CangjieCode {
        choose|c: CangjieCode| c@ == value@
    }
}

impl From<Vec<CangjieRadical>> for CangjieCode {
    fn from(value: Vec<CangjieRadical>) -> (r: CangjieCode)
        ensures
            r@ == value@,
    {
        CangjieCode::from(value.as_slice())
    }
}

impl vstd::std_specs::convert::FromSpecImpl<Vec<CangjieRadical>> for CangjieCode {
    /// Stated over the view, in the `ensures` of `from`.
    open spec fn obeys_from_spec() -> bool {
        false
    }

    open spec fn from_spec(value: Vec<CangjieRadical>) -> CangjieCode {
        choose|c: CangjieCode| c@ == value@
    }
}

impl Deref for CangjieCode {
    type Target = [CangjieRadical];

    fn deref(&self) -> (r: &[CangjieRadical])
        ensures
            r@ == self@,
    {
        radicals_slice(&self.0)
    }
}

impl AsRef<[CangjieRadical]> for CangjieCode {
    fn as_ref(&self) -> (r: &[CangjieRadical])
        ensures
            r@ == self@,
    {
        radicals_slice(&self.0)
    }
}

/// A slice holds exactly the radicals `radicals`, in order.
pub open spec fn slice_holds(s: &[CangjieRadical], radicals: Seq<CangjieRadical>) -> bool {
    s@ == radicals
}

impl Borrow<[CangjieRadical]> for CangjieCode {
    /// The same slice as [`CangjieCode::as_slice`].
    fn borrow(&self) -> (r: &[CangjieRadical])
        ensures
            slice_holds(r, self@),
    {
        radicals_slice(&self.0)
    }
}

/// Relies on `String::push`: appends one character at the end.
#[verifier::external_body]
fn push_char(s: &mut String, c: char)
    ensures
        final(s)@ == old(s)@.push(c),
{
    s.push(c)
}

/// A display adapter for printing the codes of a [`CangjieCode`].
#[derive(Debug)]
pub struct Codes<'a>(&'a CangjieCode);

impl<'a> View for Codes<'a> {
    type V = Seq<CangjieRadical>;

    closed spec fn view(&self) -> Seq<CangjieRadical> {
        self.0@
    }
}

impl<'a> Codes<'a> {
    /// The codes as text (`rtw`); each call renders afresh.
    pub fn to_string(&self) -> (r: String)
        ensures
            r@ == codes_text(self@),
    {
        let a = radicals_slice(&(self.0).0);
        let mut s = String::new();
        let mut i: usize = 0;
        while i < a.len()
            invariant
                i <= a@.len(),
                s@ == codes_text(a@.subrange(0, i as int)),
            decreases a@.len() - i,
        {
            push_char(&mut s, a[i].to_code() as char);
            i = i + 1;
            assert(a@.subrange(0, i as int) == a@.subrange(0, i - 1 as int).push(a@[i - 1]));
        }
        assert(a@.subrange(0, i as int) == a@);
        s
    }
}

/// A display adapter for printing the radical glyphs of a [`CangjieCode`].
#[derive(Debug)]
pub struct Radicals<'a>(&'a CangjieCode);

impl<'a> View for Radicals<'a> {
    type V = Seq<CangjieRadical>;

    closed spec fn view(&self) -> Seq<CangjieRadical> {
        self.0@
    }
}

impl<'a> Radicals<'a> {
    /// The glyphs as text (`口廿田`); each call renders afresh.
    pub fn to_string(&self) -> (r: String)
        ensures
            r@ == glyphs_text(self@),
    {
        let a = radicals_slice(&(self.0).0);
        let mut s = String::new();
        let mut i: usize = 0;
        while i < a.len()
            invariant
                i <= a@.len(),
                s@ == glyphs_text(a@.subrange(0, i as int)),
            decreases a@.len() - i,
        {
            push_char(&mut s, a[i].to_radical());
            i = i + 1;
            assert(a@.subrange(0, i as int) == a@.subrange(0, i - 1 as int).push(a@[i - 1]));
        }
        assert(a@.subrange(0, i as int) == a@);
        s
    }
}

impl CangjieCode {
    /// Returns a display adapter for printing the codes.
    #[must_use]
    pub fn codes(&self) -> (r: Codes<'_>)
        ensures
            r@ == self@,
    {
        Codes(self)
    }

    /// Returns a display adapter for printing the radical glyphs.
    ///
    /// Following libcangjie, the glyph of `Z` is "Ｚ", not "重".
    #[must_use]
    pub fn radicals(&self) -> (r: Radicals<'_>)
        ensures
            r@ == self@,
    {
        Radicals(self)
    }
}

/// Parsing codes and rendering them again gives the same text.
pub proof fn lemma_codes_round_trip(codes: Seq<u8>)
    requires
        all_radical_codes(codes),
    ensures
        codes_text(decode_codes(codes)) == codes.map_values(|c: u8| c as char),
{
    assert forall|i: int| 0 <= i < codes.len() implies #[trigger] codes_text(decode_codes(codes))[i]
        == codes[i] as char by {
        crate::radical::lemma_code_round_trip(codes[i]);
    }
    assert(codes_text(decode_codes(codes)) == codes.map_values(|c: u8| c as char));
}

/// Parsing glyphs and rendering them again gives the same text.
pub proof fn lemma_glyphs_round_trip(glyphs: Seq<char>)
    requires
        all_radical_glyphs(glyphs),
    ensures
        glyphs_text(decode_glyphs(glyphs)) == glyphs,
{
    assert forall|i: int| 0 <= i < glyphs.len() implies #[trigger] glyphs_text(decode_glyphs(glyphs))[i]
        == glyphs[i] by {
        crate::radical::lemma_glyph_round_trip(glyphs[i]);
    }
    assert(glyphs_text(decode_glyphs(glyphs)) == glyphs);
}

/// Order is lexicographic: a code that agrees with another up to some
/// position and has a lower radical there comes first, and a proper prefix
/// comes before the code it begins.
pub proof fn lemma_order_lexicographic(a: Seq<CangjieRadical>, b: Seq<CangjieRadical>, k: int)
    requires
        0 <= k <= a.len(),
        k <= b.len(),
        a.subrange(0, k) == b.subrange(0, k),
        (k == a.len() && k < b.len()) || (k < a.len() && k < b.len() && a[k].code() < b[k].code()),
    ensures
        radicals_cmp(a, b) == Ordering::Less,
        radicals_cmp(b, a) == Ordering::Greater,
    decreases k,
{
    if k > 0 {
        assert(a.drop_first().subrange(0, k - 1) == a.subrange(0, k).drop_first());
        assert(b.drop_first().subrange(0, k - 1) == b.subrange(0, k).drop_first());
        assert(a[0] == a.subrange(0, k)[0]);
        assert(b[0] == b.subrange(0, k)[0]);
        lemma_order_lexicographic(a.drop_first(), b.drop_first(), k - 1);
    }
}

} // verus!
