//! Ranges of accepted HTTP status codes and the selectors built from them.
//!
//! A range is written `NNN` (a single code), `NNN..MMM` (end excluded) or
//! `NNN..=MMM` (end included), where the start may be left out (`..MMM`,
//! meaning from 0) and each bound has exactly three digits. Selectors hold a
//! list of ranges and are written as a comma-separated list of ranges.
use std::collections::HashSet;
use std::ops::RangeInclusive;

use vstd::prelude::*;

use crate::text::{
    append_str, chars_of, decimal, decimal_string, digit_char, is_digit, split, split_chars,
    string_of, trim, trim_chars, views,
};

verus! {

/// Indicates that parsing an [`AcceptRange`] from a string failed.
#[derive(Debug, Clone, Copy, PartialEq, Eq, Hash, Structural)]
pub enum AcceptRangeError {
    /// The string input didn't contain any range pattern.
    NoRangePattern,
    /// The start or end index could not be parsed as an integer.
    ParseIntError,
    /// The start index is larger than the end index.
    InvalidRangeIndices,
}

impl AcceptRangeError {
    /// The human-readable description of this error.
    pub fn message(&self) -> (r: &'static str)
        ensures
            r@ == accept_range_error_message(*self),
    {
        match self {
            AcceptRangeError::NoRangePattern => "no range pattern found",
            AcceptRangeError::ParseIntError => "failed to parse str as integer",
            AcceptRangeError::InvalidRangeIndices => "invalid range indices, only start < end supported",
        }
    }
}

/// The description of each [`AcceptRangeError`].
pub open spec fn accept_range_error_message(e: AcceptRangeError) -> Seq<char> {
    match e {
        AcceptRangeError::NoRangePattern => "no range pattern found"@,
        AcceptRangeError::ParseIntError => "failed to parse str as integer"@,
        AcceptRangeError::InvalidRangeIndices => "invalid range indices, only start < end supported"@,
    }
}

/// [`AcceptRange`] specifies which HTTP status codes are accepted and
/// considered successful when checking a remote URL: all codes from `start`
/// to `end`, both included.
#[derive(Debug, Clone, Copy, PartialEq, Eq, Structural)]
pub struct AcceptRange {
    start: u16,
    end: u16,
}

impl View for AcceptRange {
    type V = (u16, u16);

    closed spec fn view(&self) -> (u16, u16) {
        (self.start, self.end)
    }
}

/// Whether the range `r` (start and end included) holds `v`.
pub open spec fn range_holds(r: (u16, u16), v: u16) -> bool {
    r.0 <= v && v <= r.1
}

/// The value of an ASCII digit.
pub open spec fn digit_value(c: char) -> int {
    c as int - '0' as int
}

/// Whether `s[i..i + 3]` are three ASCII digits.
pub open spec fn three_digits_at(s: Seq<char>, i: int) -> bool {
    0 <= i && i + 3 <= s.len() && is_digit(s[i]) && is_digit(s[i + 1]) && is_digit(s[i + 2])
}

/// The number written by the three digits `s[i..i + 3]`.
pub open spec fn three_digit_value(s: Seq<char>, i: int) -> int {
    digit_value(s[i]) * 100 + digit_value(s[i + 1]) * 10 + digit_value(s[i + 2])
}

/// Whether every character of `s` is an ASCII digit.
pub open spec fn all_digits(s: Seq<char>) -> bool {
    forall|i: int| 0 <= i < s.len() ==> is_digit(s[i])
}

/// Where the `..` of a span starts: after a three-digit start, or at the
/// beginning of the text when the start is left out.
pub open spec fn span_dots_at(s: Seq<char>) -> int {
    if three_digits_at(s, 0) {
        3
    } else {
        0
    }
}

/// The shape of a span `[NNN]..[=]MMM[MMM...]`: its start (0 when left out),
/// whether the end is included, and the value of its last three digits.
/// (Several groups of three end digits are accepted; the last group is the
/// end.)
pub open spec fn span_shape(s: Seq<char>) -> Option<(int, bool, int)> {
    let a = span_dots_at(s);
    let b = a + 2;
    if b <= s.len() && s[a] == '.' && s[a + 1] == '.' {
        let inclusive = b < s.len() && s[b] == '=';
        let d = if inclusive {
            b + 1
        } else {
            b
        };
        let rest = s.skip(d);
        if rest.len() >= 3 && rest.len() % 3 == 0 && all_digits(rest) {
            let start = if a == 3 {
                three_digit_value(s, 0)
            } else {
                0
            };
            Some((start, inclusive, three_digit_value(s, s.len() - 3)))
        } else {
            None
        }
    } else {
        None
    }
}

/// The range written by `s`, or why `s` writes none.
pub open spec fn parse_accept_range(s: Seq<char>) -> Result<(u16, u16), AcceptRangeError> {
    if s.len() == 3 && three_digits_at(s, 0) {
        let v = three_digit_value(s, 0) as u16;
        Ok((v, v))
    } else {
        match span_shape(s) {
            Some((start, inclusive, end)) => {
                let last = if inclusive {
                    end
                } else {
                    end - 1
                };
                if start > last {
                    Err(AcceptRangeError::InvalidRangeIndices)
                } else {
                    Ok((start as u16, last as u16))
                }
            },
            None => Err(AcceptRangeError::NoRangePattern),
        }
    }
}

/// What merging `other` into `r` yields: whether the two were merged, and
/// the updated `r`. Ranges merge when they overlap; the merged range runs
/// from the smaller of the two starts to the larger of the two ends.
pub open spec fn merge_spec(r: (u16, u16), other: (u16, u16)) -> (bool, (u16, u16)) {
    if r.0 <= other.1 && other.0 <= r.1 {
        (
            true,
            (if other.0 < r.0 { other.0 } else { r.0 }, if other.1 > r.1 { other.1 } else { r.1 }),
        )
    } else {
        (false, r)
    }
}

/// The view of a parse result.
pub open spec fn range_result(r: Result<AcceptRange, AcceptRangeError>) -> Result<
    (u16, u16),
    AcceptRangeError,
> {
    match r {
        Ok(x) => Ok(x@),
        Err(e) => Err(e),
    }
}

/// The value of three ASCII digits.
fn three_digit_number(a: char, b: char, c: char) -> (r: u16)
    requires
        is_digit(a),
        is_digit(b),
        is_digit(c),
    ensures
        r as int == digit_value(a) * 100 + digit_value(b) * 10 + digit_value(c),
        r <= 999,
{
    let x = (a as u32 - '0' as u32) * 100 + (b as u32 - '0' as u32) * 10 + (c as u32 - '0' as u32);
    x as u16
}

fn is_digit_char(c: char) -> (r: bool)
    ensures
        r == is_digit(c),
{
    '0' <= c && c <= '9'
}

impl AcceptRange {
    /// Creates a new [`AcceptRange`] which matches values between `start` and
    /// `end` (both inclusive). No check is made that `start <= end`.
    pub fn new(start: u16, end: u16) -> (r: Self)
        ensures
            r@ == (start, end),
    {
        AcceptRange { start, end }
    }

    /// Creates a new [`AcceptRange`] which matches values between `start` and
    /// `end` (both inclusive), failing when `start > end`.
    pub fn new_from(start: u16, end: u16) -> (r: Result<Self, AcceptRangeError>)
        ensures
            start > end ==> r == Err::<Self, AcceptRangeError>(AcceptRangeError::InvalidRangeIndices),
            start <= end ==> (r matches Ok(x) && x@ == (start, end)),
    {
        if start > end {
            return Err(AcceptRangeError::InvalidRangeIndices);
        }
        Ok(Self::new(start, end))
    }

    /// Returns the `start` value of this [`AcceptRange`].
    pub fn start(&self) -> (r: &u16)
        ensures
            *r == self@.0,
    {
        &self.start
    }

    /// Returns the `end` value of this [`AcceptRange`].
    pub fn end(&self) -> (r: &u16)
        ensures
            *r == self@.1,
    {
        &self.end
    }

    /// Returns whether this [`AcceptRange`] contains `value`.
    pub fn contains(&self, value: u16) -> (r: bool)
        ensures
            r == range_holds(self@, value),
    {
        self.start <= value && value <= self.end
    }

    /// Consumes self and returns the inner range.
    pub fn inner(self) -> (r: RangeInclusive<u16>)
        ensures
            r@.start == self@.0,
            r@.end == self@.1,
            !r@.exhausted,
    {
        RangeInclusive::new(self.start, self.end)
    }

    /// Parses a range from its textual form.
    #[verifier::loop_isolation(false)]
    pub fn from_str(s: &str) -> (r: Result<Self, AcceptRangeError>)
        ensures
            range_result(r) == parse_accept_range(s@),
    {
        let v = chars_of(s);
        let n = v.len();
        if n == 3 && is_digit_char(v[0]) && is_digit_char(v[1]) && is_digit_char(v[2]) {
            let x = three_digit_number(v[0], v[1], v[2]);
            return Self::new_from(x, x);
        }
        let a: usize = if n >= 3 && is_digit_char(v[0]) && is_digit_char(v[1]) && is_digit_char(
            v[2],
        ) {
            3
        } else {
            0
        };
        assert(a == span_dots_at(v@));
        if !(a + 2 <= n && v[a] == '.' && v[a + 1] == '.') {
            return Err(AcceptRangeError::NoRangePattern);
        }
        let b = a + 2;
        let inclusive = b < n && v[b] == '=';
        let d = if inclusive {
            b + 1
        } else {
            b
        };
        let rest_len = n - d;
        if !(rest_len >= 3 && rest_len % 3 == 0) {
            return Err(AcceptRangeError::NoRangePattern);
        }
        let mut k = d;
        while k < n
            invariant
                d <= k <= n,
                n == v@.len(),
                forall|j: int| d <= j < k ==> is_digit(v@[j]),
            decreases n - k,
        {
            if !is_digit_char(v[k]) {
                assert(!all_digits(v@.skip(d as int))) by {
                    assert(v@.skip(d as int)[k - d] == v@[k as int]);
                }
                return Err(AcceptRangeError::NoRangePattern);
            }
            k += 1;
        }
        assert(all_digits(v@.skip(d as int)));
        let start: u16 = if a == 3 {
            three_digit_number(v[0], v[1], v[2])
        } else {
            0
        };
        let end = three_digit_number(v[n - 3], v[n - 2], v[n - 1]);
        if inclusive {
            Self::new_from(start, end)
        } else if end == 0 {
            Err(AcceptRangeError::InvalidRangeIndices)
        } else {
            Self::new_from(start, end - 1)
        }
    }

    /// The textual form `start..=end`.
    pub fn to_string(&self) -> (r: String)
        ensures
            r@ == decimal(self@.0 as nat) + "..="@ + decimal(self@.1 as nat),
    {
        let mut out: Vec<char> = Vec::new();
        let s = decimal_string(self.start);
        append_str(&mut out, s.as_str());
        append_str(&mut out, "..=");
        let e = decimal_string(self.end);
        append_str(&mut out, e.as_str());
        string_of(out.as_slice())
    }

    pub(crate) fn update_start(&mut self, new_start: u16) -> (r: Result<(), AcceptRangeError>)
        ensures
            new_start > old(self)@.1 ==> r == Err::<(), AcceptRangeError>(
                AcceptRangeError::InvalidRangeIndices,
            ) && *final(self) == *old(self),
            new_start <= old(self)@.1 ==> r is Ok && final(self)@ == (new_start, old(self)@.1),
    {
        let end = self.end;
        if new_start > end {
            return Err(AcceptRangeError::InvalidRangeIndices);
        }
        self.start = new_start;
        Ok(())
    }

    pub(crate) fn update_end(&mut self, new_end: u16) -> (r: Result<(), AcceptRangeError>)
        ensures
            old(self)@.0 > new_end ==> r == Err::<(), AcceptRangeError>(
                AcceptRangeError::InvalidRangeIndices,
            ) && *final(self) == *old(self),
            old(self)@.0 <= new_end ==> r is Ok && final(self)@ == (old(self)@.0, new_end),
    {
        let start = self.start;
        if start > new_end {
            return Err(AcceptRangeError::InvalidRangeIndices);
        }
        self.end = new_end;
        Ok(())
    }

    /// Merges `other` into this range when the two overlap; see [`merge_spec`].
    pub(crate) fn merge(&mut self, other: &Self) -> (r: bool)
        ensures
            (r, final(self)@) == merge_spec(old(self)@, other@),
    {
        if self.start <= other.end && other.start <= self.end {
            let new_start = if other.start < self.start { other.start } else { self.start };
            let new_end = if other.end > self.end { other.end } else { self.end };
            let _ = self.update_end(new_end);
            let _ = self.update_start(new_start);
            return true;
        }
        false
    }
}

/// The views of a sequence of ranges.
pub open spec fn range_views(rs: Seq<AcceptRange>) -> Seq<(u16, u16)> {
    rs.map_values(|r: AcceptRange| r@)
}

/// Whether one of the ranges holds `v`.
pub open spec fn ranges_hold(rs: Seq<(u16, u16)>, v: u16) -> bool {
    exists|i: int| 0 <= i < rs.len() && range_holds(rs[i], v)
}

/// The ranges after adding `r`: merged into the last range when possible,
/// appended otherwise.
pub open spec fn add_range_spec(rs: Seq<(u16, u16)>, r: (u16, u16)) -> Seq<(u16, u16)> {
    if rs.len() > 0 && merge_spec(rs.last(), r).0 {
        rs.update(rs.len() - 1, merge_spec(rs.last(), r).1)
    } else {
        rs.push(r)
    }
}

/// The ranges after adding each of `new` in turn.
pub open spec fn add_ranges_spec(rs: Seq<(u16, u16)>, new: Seq<(u16, u16)>) -> Seq<(u16, u16)>
    decreases new.len(),
{
    if new.len() == 0 {
        rs
    } else {
        add_range_spec(add_ranges_spec(rs, new.drop_last()), new.last())
    }
}

/// Whether every range has its start at or before its end.
pub open spec fn well_formed_ranges(rs: Seq<(u16, u16)>) -> bool {
    forall|i: int| 0 <= i < rs.len() ==> rs[i].0 <= rs[i].1
}

/// The ranges written by a comma-separated list, each trimmed, or the first
/// error among them.
pub open spec fn parse_range_list(parts: Seq<Seq<char>>) -> Result<Seq<(u16, u16)>, AcceptRangeError>
    decreases parts.len(),
{
    if parts.len() == 0 {
        Ok(seq![])
    } else {
        match parse_range_list(parts.drop_last()) {
            Err(e) => Err(e),
            Ok(rs) => match parse_accept_range(trim(parts.last())) {
                Err(e) => Err(e),
                Ok(r) => Ok(rs.push(r)),
            },
        }
    }
}

/// Parses the pieces of a comma-separated list of ranges.
pub(crate) fn parse_ranges(input: &str) -> (r: Result<Vec<AcceptRange>, AcceptRangeError>)
    ensures
        r matches Ok(v) ==> parse_range_list(split(trim(input@), ',')) == Ok::<
            Seq<(u16, u16)>,
            AcceptRangeError,
        >(range_views(v@)),
        r matches Err(e) ==> parse_range_list(split(trim(input@), ',')) == Err::<
            Seq<(u16, u16)>,
            AcceptRangeError,
        >(e),
{
    let chars = chars_of(input);
    let trimmed = trim_chars(chars.as_slice());
    let parts = split_chars(trimmed.as_slice(), ',');
    let ghost pv = views(parts@);
    let mut out: Vec<AcceptRange> = Vec::new();
    let mut i: usize = 0;
    assert(pv.take(0) =~= Seq::<Seq<char>>::empty());
    assert(range_views(out@) =~= Seq::<(u16, u16)>::empty());
    while i < parts.len()
        invariant
            i <= parts.len(),
            pv == views(parts@),
            pv == split(trim(input@), ','),
            parse_range_list(pv.take(i as int)) == Ok::<Seq<(u16, u16)>, AcceptRangeError>(
                range_views(out@),
            ),
        decreases parts.len() - i,
    {
        let piece = trim_chars(parts[i].as_slice());
        let text = string_of(piece.as_slice());
        proof {
            assert(pv[i as int] == parts@[i as int]@);
            assert(pv.take(i + 1).drop_last() == pv.take(i as int));
        }
        match AcceptRange::from_str(text.as_str()) {
            Ok(r) => {
                let ghost before = range_views(out@);
                out.push(r);
                assert(range_views(out@) =~= before.push(r@));
            },
            Err(e) => {
                proof {
                    lemma_parse_list_err_prefix(pv, (i + 1) as int, e);
                }
                return Err(e);
            },
        }
        i += 1;
    }
    assert(pv.take(parts.len() as int) == pv);
    Ok(out)
}

proof fn lemma_parse_list_err_prefix(parts: Seq<Seq<char>>, k: int, e: AcceptRangeError)
    requires
        0 <= k <= parts.len(),
        parse_range_list(parts.take(k)) == Err::<Seq<(u16, u16)>, AcceptRangeError>(e),
    ensures
        parse_range_list(parts) == Err::<Seq<(u16, u16)>, AcceptRangeError>(e),
    decreases parts.len() - k,
{
    if k < parts.len() {
        assert(parts.take(k + 1).drop_last() == parts.take(k));
        lemma_parse_list_err_prefix(parts, k + 1, e);
    } else {
        assert(parts.take(k) == parts);
    }
}

/// Adds `range` to `ranges`, merging it into the last range when the two
/// overlap.
pub(crate) fn add_range_to(ranges: &mut Vec<AcceptRange>, range: AcceptRange)
    ensures
        range_views(final(ranges)@) == add_range_spec(range_views(old(ranges)@), range@),
{
    let n = ranges.len();
    if n > 0 {
        let mut last = ranges[n - 1];
        if last.merge(&range) {
            ranges.set(n - 1, last);
            proof {
                assert(range_views(final(ranges)@) =~= range_views(old(ranges)@).update(
                    n - 1,
                    last@,
                ));
            }
            return;
        }
    }
    ranges.push(range);
    assert(range_views(final(ranges)@) =~= range_views(old(ranges)@).push(range@));
}

/// Adds each of `new` in turn.
pub(crate) fn add_ranges_to(ranges: &mut Vec<AcceptRange>, new: Vec<AcceptRange>)
    ensures
        range_views(final(ranges)@) == add_ranges_spec(range_views(old(ranges)@), range_views(new@)),
{
    let mut i: usize = 0;
    while i < new.len()
        invariant
            i <= new.len(),
            range_views(ranges@) == add_ranges_spec(
                range_views(old(ranges)@),
                range_views(new@).take(i as int),
            ),
        decreases new.len() - i,
    {
        add_range_to(ranges, new[i]);
        proof {
            let nv = range_views(new@);
            assert(nv.take(i + 1).drop_last() == nv.take(i as int));
            assert(nv.take(i + 1).last() == new@[i as int]@);
        }
        i += 1;
    }
    assert(range_views(new@).take(new.len() as int) == range_views(new@));
}

/// Whether one of `ranges` holds `value`.
pub(crate) fn ranges_contain(ranges: &Vec<AcceptRange>, value: u16) -> (r: bool)
    ensures
        r == ranges_hold(range_views(ranges@), value),
{
    let mut i: usize = 0;
    while i < ranges.len()
        invariant
            i <= ranges.len(),
            forall|j: int| 0 <= j < i ==> !range_holds(#[trigger] ranges@[j]@, value),
        decreases ranges.len() - i,
    {
        if ranges[i].contains(value) {
            assert(range_views(ranges@)[i as int] == ranges@[i as int]@);
            return true;
        }
        i += 1;
    }
    proof {
        assert forall|j: int| 0 <= j < range_views(ranges@).len() implies !range_holds(
            range_views(ranges@)[j],
            value,
        ) by {
            assert(range_views(ranges@)[j] == ranges@[j]@);
        }
    }
    false
}

/// The set of all codes held by one of `ranges`.
pub(crate) fn ranges_to_set(ranges: &Vec<AcceptRange>) -> (r: HashSet<u16>)
    ensures
        r@ == Set::new(|v: u16| ranges_hold(range_views(ranges@), v)),
{
    broadcast use vstd::std_specs::hash::group_hash_axioms;

    let mut set: HashSet<u16> = HashSet::new();
    let ghost rv = range_views(ranges@);
    let mut i: usize = 0;
    while i < ranges.len()
        invariant
            i <= ranges.len(),
            rv == range_views(ranges@),
            set@ == Set::new(|v: u16| ranges_hold(rv.take(i as int), v)),
        decreases ranges.len() - i,
    {
        let r = ranges[i];
        let ghost before = set@;
        if r.start <= r.end {
            let mut v = r.start;
            loop
                invariant_except_break
                    r.start <= v <= r.end,
                    set@ == before.union(Set::new(|x: u16| r.start <= x < v)),
                ensures
                    set@ == before.union(Set::new(|x: u16| r.start <= x <= r.end)),
                decreases r.end - v,
            {
                set.insert(v);
                assert(set@ =~= before.union(Set::new(|x: u16| r.start <= x <= v)));
                if v == r.end {
                    break;
                }
                v = v + 1;
                assert(Set::new(|x: u16| r.start <= x <= v - 1) =~= Set::new(
                    |x: u16| r.start <= x < v,
                ));
            }
        }
        assert(set@ =~= before.union(Set::new(|x: u16| range_holds(r@, x))));
        proof {
            assert(rv[i as int] == r@);
            assert(rv.take(i + 1) == rv.take(i as int).push(r@));
            assert forall|x: u16| ranges_hold(rv.take(i + 1), x) implies set@.contains(x) by {
                let j = choose|j: int|
                    0 <= j < rv.take(i + 1).len() && #[trigger] range_holds(rv.take(i + 1)[j], x);
                if j < i {
                    assert(rv.take(i as int)[j] == rv.take(i + 1)[j]);
                    assert(ranges_hold(rv.take(i as int), x));
                    assert(before.contains(x));
                } else {
                    assert(range_holds(r@, x));
                }
            }
            assert forall|x: u16| set@.contains(x) implies ranges_hold(rv.take(i + 1), x) by {
                if before.contains(x) {
                    let j = choose|j: int|
                        0 <= j < rv.take(i as int).len() && #[trigger] range_holds(
                            rv.take(i as int)[j],
                            x,
                        );
                    assert(rv.take(i + 1)[j] == rv.take(i as int)[j]);
                } else {
                    assert(rv.take(i + 1)[i as int] == r@);
                }
            }
            assert(set@ =~= Set::new(|x: u16| ranges_hold(rv.take(i + 1), x)));
        }
        i += 1;
    }
    assert(rv.take(ranges.len() as int) == rv);
    set
}

/// The codes of a range, in ascending order.
pub open spec fn range_codes(r: (u16, u16)) -> Seq<u16> {
    if r.0 <= r.1 {
        Seq::new((r.1 - r.0 + 1) as nat, |i: int| (r.0 + i) as u16)
    } else {
        seq![]
    }
}

/// The codes of the ranges, range by range.
pub open spec fn ranges_codes_spec(rs: Seq<(u16, u16)>) -> Seq<u16>
    decreases rs.len(),
{
    if rs.len() == 0 {
        seq![]
    } else {
        ranges_codes_spec(rs.drop_last()) + range_codes(rs.last())
    }
}

proof fn lemma_ranges_codes_hold(rs: Seq<(u16, u16)>, v: u16)
    ensures
        ranges_codes_spec(rs).contains(v) <==> ranges_hold(rs, v),
    decreases rs.len(),
{
    if rs.len() > 0 {
        let init = rs.drop_last();
        lemma_ranges_codes_hold(init, v);
        let r = rs.last();
        let a = ranges_codes_spec(init);
        let b = range_codes(r);
        assert(b.contains(v) <==> range_holds(r, v)) by {
            if range_holds(r, v) {
                assert(b[v - r.0] == v);
            }
        }
        assert((a + b).contains(v) <==> (a.contains(v) || b.contains(v))) by {
            if (a + b).contains(v) {
                let k = choose|k: int| 0 <= k < (a + b).len() && (a + b)[k] == v;
                if k < a.len() {
                    assert(a[k] == v);
                } else {
                    assert(b[k - a.len()] == v);
                }
            }
            if a.contains(v) {
                let k = choose|k: int| 0 <= k < a.len() && a[k] == v;
                assert((a + b)[k] == v);
            }
            if b.contains(v) {
                let k = choose|k: int| 0 <= k < b.len() && b[k] == v;
                assert((a + b)[k + a.len()] == v);
            }
        }
        if ranges_hold(rs, v) {
            let j = choose|j: int| 0 <= j < rs.len() && #[trigger] range_holds(rs[j], v);
            if j < init.len() {
                assert(init[j] == rs[j]);
            }
        }
        if ranges_hold(init, v) {
            let j = choose|j: int| 0 <= j < init.len() && #[trigger] range_holds(init[j], v);
            assert(rs[j] == init[j]);
        }
    }
}

/// Every code held by one of `ranges`, range by range in ascending order.
pub(crate) fn ranges_codes(ranges: &Vec<AcceptRange>) -> (r: Vec<u16>)
    ensures
        r@ == ranges_codes_spec(range_views(ranges@)),
        forall|v: u16| r@.contains(v) <==> ranges_hold(range_views(ranges@), v),
{
    let ghost rv = range_views(ranges@);
    let mut out: Vec<u16> = Vec::new();
    let mut i: usize = 0;
    while i < ranges.len()
        invariant
            i <= ranges.len(),
            rv == range_views(ranges@),
            out@ == ranges_codes_spec(rv.take(i as int)),
        decreases ranges.len() - i,
    {
        let r = ranges[i];
        let ghost before = out@;
        if r.start <= r.end {
            let mut v = r.start;
            loop
                invariant_except_break
                    r.start <= v <= r.end,
                    out@ == before + Seq::new((v - r.start) as nat, |k: int| (r.start + k) as u16),
                ensures
                    out@ == before + range_codes(r@),
                decreases r.end - v,
            {
                out.push(v);
                assert(out@ =~= before + Seq::new(
                    (v + 1 - r.start) as nat,
                    |k: int| (r.start + k) as u16,
                ));
                if v == r.end {
                    break;
                }
                v = v + 1;
            }
        } else {
            assert(out@ =~= before + range_codes(r@));
        }
        proof {
            assert(rv.take(i + 1).drop_last() == rv.take(i as int));
            assert(rv.take(i + 1).last() == r@);
        }
        i += 1;
    }
    assert(rv.take(ranges.len() as int) == rv);
    proof {
        assert forall|v: u16| out@.contains(v) <==> ranges_hold(rv, v) by {
            lemma_ranges_codes_hold(rv, v);
        }
    }
    out
}

/// Errors that occur while parsing an [`AcceptSelector`].
#[derive(Debug, Clone, Copy, PartialEq, Eq, Structural)]
pub enum AcceptSelectorError {
    /// The input is empty or blank.
    InvalidInput,
    /// One of the ranges could not be parsed.
    AcceptRangeError(AcceptRangeError),
}

/// The selector ranges written by a comma-separated list, or why it writes
/// none: blank input, or the first range that does not parse.
pub open spec fn parse_range_selector(s: Seq<char>) -> Result<Seq<(u16, u16)>, AcceptRangeError> {
    match parse_range_list(split(trim(s), ',')) {
        Ok(rs) => Ok(add_ranges_spec(seq![], rs)),
        Err(e) => Err(e),
    }
}

/// An [`AcceptSelector`] determines if a returned HTTP status code should be
/// accepted and thus counted as a valid (not broken) link.
#[derive(Clone, Debug, PartialEq, Eq)]
pub struct AcceptSelector {
    ranges: Vec<AcceptRange>,
}

impl View for AcceptSelector {
    type V = Seq<(u16, u16)>;

    closed spec fn view(&self) -> Seq<(u16, u16)> {
        range_views(self.ranges@)
    }
}

/// The ranges of the default [`AcceptSelector`].
pub open spec fn default_accept_ranges() -> Seq<(u16, u16)> {
    seq![(100u16, 103u16), (200u16, 299u16), (403u16, 403u16)]
}

impl AcceptSelector {
    /// Creates a new empty [`AcceptSelector`].
    pub fn new() -> (r: Self)
        ensures
            r@ == Seq::<(u16, u16)>::empty(),
    {
        let r = Self { ranges: Vec::new() };
        assert(r@ =~= Seq::<(u16, u16)>::empty());
        r
    }

    /// Creates a new [`AcceptSelector`] prefilled with `ranges`, added in turn.
    pub fn new_from(ranges: Vec<AcceptRange>) -> (r: Self)
        ensures
            r@ == add_ranges_spec(seq![], range_views(ranges@)),
    {
        let mut selector = Self::new();
        add_ranges_to(&mut selector.ranges, ranges);
        selector
    }

    /// The selector accepting 100..=103, 200..=299 and 403.
    pub fn default() -> (r: Self)
        ensures
            r@ == default_accept_ranges(),
    {
        let mut v: Vec<AcceptRange> = Vec::new();
        v.push(AcceptRange::new(100, 103));
        v.push(AcceptRange::new(200, 299));
        v.push(AcceptRange::new(403, 403));
        let r = Self::new_from(v);
        proof {
            let rv = range_views(v@);
            let e = Seq::<(u16, u16)>::empty();
            assert(rv =~= seq![(100u16, 103u16), (200u16, 299u16), (403u16, 403u16)]);
            assert(rv.drop_last() =~= seq![(100u16, 103u16), (200u16, 299u16)]);
            assert(rv.drop_last().drop_last() =~= seq![(100u16, 103u16)]);
            assert(rv.drop_last().drop_last().drop_last() =~= e);
            assert(add_ranges_spec(e, rv.drop_last().drop_last().drop_last()) == e);
            let r1 = add_range_spec(e, (100u16, 103u16));
            assert(r1 =~= seq![(100u16, 103u16)]);
            assert(add_ranges_spec(e, rv.drop_last().drop_last()) == r1);
            let r2 = add_range_spec(r1, (200u16, 299u16));
            assert(r2 =~= seq![(100u16, 103u16), (200u16, 299u16)]);
            assert(add_ranges_spec(e, rv.drop_last()) == r2);
            let r3 = add_range_spec(r2, (403u16, 403u16));
            assert(r3 =~= default_accept_ranges());
        }
        r
    }

    /// Parses a comma-separated list of ranges, such as `100..=103,200..300,403`.
    pub fn from_str(input: &str) -> (r: Result<Self, AcceptSelectorError>)
        ensures
            trim(input@).len() == 0 ==> r == Err::<Self, AcceptSelectorError>(
                AcceptSelectorError::InvalidInput,
            ),
            trim(input@).len() > 0 ==> match parse_range_selector(input@) {
                Ok(rs) => (r matches Ok(x) && x@ == rs),
                Err(e) => r == Err::<Self, AcceptSelectorError>(
                    AcceptSelectorError::AcceptRangeError(e),
                ),
            },
    {
        let chars = chars_of(input);
        let trimmed = trim_chars(chars.as_slice());
        if trimmed.len() == 0 {
            return Err(AcceptSelectorError::InvalidInput);
        }
        match parse_ranges(input) {
            Ok(v) => Ok(Self::new_from(v)),
            Err(e) => Err(AcceptSelectorError::AcceptRangeError(e)),
        }
    }

    /// Adds a range of accepted HTTP status codes to this [`AcceptSelector`],
    /// merging it into the last range if the two overlap.
    pub fn add_range(&mut self, range: AcceptRange) -> (r: &mut Self)
        ensures
            (*r)@ == add_range_spec(old(self)@, range@),
            *final(self) == *final(r),
    {
        add_range_to(&mut self.ranges, range);
        self
    }

    /// Returns whether this [`AcceptSelector`] contains `value`.
    pub fn contains(&self, value: u16) -> (r: bool)
        ensures
            r == ranges_hold(self@, value),
    {
        ranges_contain(&self.ranges, value)
    }

    /// Consumes self and creates a [`HashSet`] which contains all
    /// accepted status codes.
    pub fn into_set(self) -> (r: HashSet<u16>)
        ensures
            r@ == Set::new(|v: u16| ranges_hold(self@, v)),
    {
        ranges_to_set(&self.ranges)
    }

    /// The number of ranges in this selector.
    pub fn len(&self) -> (r: usize)
        ensures
            r == self@.len(),
    {
        self.ranges.len()
    }

    /// The textual form `[r1,r2,...]`, each range written `start..=end`.
    pub fn to_string(&self) -> (r: String)
        ensures
            r@ == seq!['['] + ranges_text(self@) + seq![']'],
    {
        let mut out: Vec<char> = Vec::new();
        out.push('[');
        let inner = ranges_to_string(&self.ranges);
        append_str(&mut out, inner.as_str());
        out.push(']');
        string_of(out.as_slice())
    }
}

/// The textual form of one range.
pub open spec fn range_text(r: (u16, u16)) -> Seq<char> {
    decimal(r.0 as nat) + "..="@ + decimal(r.1 as nat)
}

/// The textual forms of the ranges, separated by commas.
pub open spec fn ranges_text(rs: Seq<(u16, u16)>) -> Seq<char>
    decreases rs.len(),
{
    if rs.len() == 0 {
        seq![]
    } else if rs.len() == 1 {
        range_text(rs[0])
    } else {
        ranges_text(rs.drop_last()) + seq![','] + range_text(rs.last())
    }
}

/// Writes the ranges, separated by commas.
pub(crate) fn ranges_to_string(ranges: &Vec<AcceptRange>) -> (r: String)
    ensures
        r@ == ranges_text(range_views(ranges@)),
{
    let ghost rv = range_views(ranges@);
    let mut out: Vec<char> = Vec::new();
    let mut i: usize = 0;
    while i < ranges.len()
        invariant
            i <= ranges.len(),
            rv == range_views(ranges@),
            out@ == ranges_text(rv.take(i as int)),
        decreases ranges.len() - i,
    {
        if i > 0 {
            out.push(',');
        }
        let s = ranges[i].to_string();
        let ghost before = out@;
        append_str(&mut out, s.as_str());
        proof {
            assert(rv.take(i + 1).drop_last() == rv.take(i as int));
            assert(rv.take(i + 1).last() == ranges@[i as int]@);
            if i == 0 {
                assert(rv.take(0) =~= Seq::<(u16, u16)>::empty());
                assert(before =~= Seq::<char>::empty());
                assert(out@ =~= range_text(rv.take(1)[0]));
            } else {
                assert(out@ =~= ranges_text(rv.take(i as int)) + seq![','] + range_text(
                    rv.take(i + 1).last(),
                ));
            }
        }
        i += 1;
    }
    assert(rv.take(ranges.len() as int) == rv);
    string_of(out.as_slice())
}

// ---------------------------------------------------------------------------
// Laws
/// Writing a range of three-digit codes and parsing the text back gives the
/// same range.
pub proof fn law_range_text_roundtrip(r: AcceptRange)
    requires
        100 <= r@.0 <= r@.1 <= 999,
    ensures
        parse_accept_range(range_text(r@)) == Ok::<(u16, u16), AcceptRangeError>(r@),
{
    let s = range_text(r@);
    lemma_decimal_three(r@.0 as nat);
    lemma_decimal_three(r@.1 as nat);
    reveal_strlit("..=");
    let a = decimal(r@.0 as nat);
    let e = decimal(r@.1 as nat);
    assert(s.len() == 9);
    assert(s[0] == a[0] && s[1] == a[1] && s[2] == a[2]);
    assert(s[3] == '.' && s[4] == '.' && s[5] == '=');
    assert(s.skip(6) =~= e);
    assert(three_digits_at(s, 0));
    assert(span_dots_at(s) == 3);
    assert(three_digit_value(s, 0) == r@.0);
    assert(s[6] == e[0] && s[7] == e[1] && s[8] == e[2]);
    assert(three_digit_value(s, s.len() - 3) == r@.1);
    assert(all_digits(s.skip(6)));
    assert(span_shape(s) == Some((r@.0 as int, true, r@.1 as int)));
}

/// The decimal form of a three-digit number.
proof fn lemma_decimal_three(n: nat)
    requires
        100 <= n <= 999,
    ensures
        decimal(n).len() == 3,
        is_digit(decimal(n)[0]) && is_digit(decimal(n)[1]) && is_digit(decimal(n)[2]),
        digit_value(decimal(n)[0]) * 100 + digit_value(decimal(n)[1]) * 10 + digit_value(
            decimal(n)[2],
        ) == n,
{
    let h = n / 100;
    let t = (n / 10) % 10;
    let u = n % 10;
    assert(decimal(n / 10 / 10) == seq![digit_char(h)]) by {
        assert(n / 10 / 10 == h);
    }
    assert(decimal(n / 10) == decimal(n / 10 / 10) + seq![digit_char(t)]);
    assert(decimal(n) == decimal(n / 10) + seq![digit_char(u)]);
    assert(decimal(n) =~= seq![digit_char(h), digit_char(t), digit_char(u)]);
    assert(n == h * 100 + t * 10 + u);
}

/// Adding a well-formed range to well-formed ranges keeps them well-formed,
/// and the codes held afterwards are those held before plus those of the
/// added range.
pub proof fn law_add_range_union(rs: Seq<(u16, u16)>, r: (u16, u16), v: u16)
    requires
        well_formed_ranges(rs),
        r.0 <= r.1,
    ensures
        well_formed_ranges(add_range_spec(rs, r)),
        ranges_hold(add_range_spec(rs, r), v) == (ranges_hold(rs, v) || range_holds(r, v)),
{
    let out = add_range_spec(rs, r);
    if rs.len() > 0 && merge_spec(rs.last(), r).0 {
        let n = rs.len() - 1;
        let m = merge_spec(rs.last(), r).1;
        assert(rs.last() == rs[n]);
        assert(forall|x: u16| range_holds(m, x) == (range_holds(rs[n], x) || range_holds(r, x)));
        if ranges_hold(out, v) {
            let j = choose|j: int| 0 <= j < out.len() && #[trigger] range_holds(out[j], v);
            if j != n {
                assert(range_holds(rs[j], v));
            }
        }
        if ranges_hold(rs, v) {
            let j = choose|j: int| 0 <= j < rs.len() && #[trigger] range_holds(rs[j], v);
            if j != n {
                assert(out[j] == rs[j]);
            } else {
                assert(range_holds(out[n], v));
            }
        }
        if range_holds(r, v) {
            assert(range_holds(out[n], v));
        }
    } else {
        if ranges_hold(out, v) {
            let j = choose|j: int| 0 <= j < out.len() && #[trigger] range_holds(out[j], v);
            if j < rs.len() {
                assert(range_holds(rs[j], v));
            }
        }
        if ranges_hold(rs, v) {
            let j = choose|j: int| 0 <= j < rs.len() && #[trigger] range_holds(rs[j], v);
            assert(out[j] == rs[j]);
        }
        if range_holds(r, v) {
            assert(out[rs.len() as int] == r);
        }
    }
}


/// A range written `SSS..EEE`, without `=`, leaves out its end: it holds the
/// codes from SSS up to EEE - 1, and is invalid when SSS is not below EEE.
/// Its end EEE itself is never accepted.
pub proof fn law_exclusive_range_leaves_out_end(s: Seq<char>)
    requires
        s.len() == 8,
        three_digits_at(s, 0),
        s[3] == '.',
        s[4] == '.',
        three_digits_at(s, 5),
    ensures
        three_digit_value(s, 0) < three_digit_value(s, 5) ==> parse_accept_range(s) == Ok::<
            (u16, u16),
            AcceptRangeError,
        >((three_digit_value(s, 0) as u16, (three_digit_value(s, 5) - 1) as u16)),
        three_digit_value(s, 0) >= three_digit_value(s, 5) ==> parse_accept_range(s) == Err::<
            (u16, u16),
            AcceptRangeError,
        >(AcceptRangeError::InvalidRangeIndices),
        forall|r: (u16, u16)|
            parse_accept_range(s) == Ok::<(u16, u16), AcceptRangeError>(r) ==> !range_holds(
                r,
                three_digit_value(s, 5) as u16,
            ),
{
    let rest = s.skip(5);
    assert(rest.len() == 3);
    assert(all_digits(rest)) by {
        assert forall|i: int| 0 <= i < rest.len() implies is_digit(rest[i]) by {
            assert(rest[i] == s[5 + i]);
        }
    }
    assert(span_dots_at(s) == 3);
    assert(!is_digit('.'));
    assert(s[5] != '=');
    assert(span_shape(s) == Some((three_digit_value(s, 0), false, three_digit_value(s, 5))));
    lemma_three_digit_value_bounds(s, 0);
    lemma_three_digit_value_bounds(s, 5);
}

/// A range written `..EEE`, without start and without `=`, holds the codes
/// from 0 up to EEE - 1, and is invalid when EEE is 000. Its end EEE itself
/// is never accepted.
pub proof fn law_exclusive_range_without_start(s: Seq<char>)
    requires
        s.len() == 5,
        s[0] == '.',
        s[1] == '.',
        three_digits_at(s, 2),
    ensures
        three_digit_value(s, 2) > 0 ==> parse_accept_range(s) == Ok::<(u16, u16), AcceptRangeError>(
            (0u16, (three_digit_value(s, 2) - 1) as u16),
        ),
        three_digit_value(s, 2) == 0 ==> parse_accept_range(s) == Err::<
            (u16, u16),
            AcceptRangeError,
        >(AcceptRangeError::InvalidRangeIndices),
        forall|r: (u16, u16)|
            parse_accept_range(s) == Ok::<(u16, u16), AcceptRangeError>(r) ==> !range_holds(
                r,
                three_digit_value(s, 2) as u16,
            ),
{
    let rest = s.skip(2);
    assert(rest.len() == 3);
    assert(all_digits(rest)) by {
        assert forall|i: int| 0 <= i < rest.len() implies is_digit(rest[i]) by {
            assert(rest[i] == s[2 + i]);
        }
    }
    assert(!is_digit('.'));
    assert(!three_digits_at(s, 0));
    assert(span_dots_at(s) == 0);
    assert(s[2] != '=');
    assert(span_shape(s) == Some((0int, false, three_digit_value(s, 2))));
    lemma_three_digit_value_bounds(s, 2);
}

/// Three digits write a number from 0 to 999.
proof fn lemma_three_digit_value_bounds(s: Seq<char>, i: int)
    requires
        three_digits_at(s, i),
    ensures
        0 <= three_digit_value(s, i) <= 999,
{
}

} // verus!
