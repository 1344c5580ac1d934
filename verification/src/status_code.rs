//! Selecting and excluding HTTP status codes by ranges.
use std::collections::HashSet;

use http::StatusCode;
use http::status::InvalidStatusCode;
use vstd::prelude::*;

use crate::accept::{
    add_range_spec, add_range_to, add_ranges_spec, add_ranges_to, parse_range_selector,
    parse_ranges, range_views, ranges_contain, ranges_hold, ranges_text,
    ranges_to_set, ranges_to_string, range_codes, range_holds, ranges_codes, ranges_codes_spec,
    accept_range_error_message, AcceptRange, AcceptRangeError,
};
use crate::text::{append_str, chars_of, string_of, trim, trim_chars};

verus! {

#[verifier::external_type_specification]
#[verifier::external_body]
pub struct ExStatusCode(StatusCode);

#[verifier::external_type_specification]
#[verifier::external_body]
pub struct ExInvalidStatusCode(InvalidStatusCode);

/// Errors that occur while parsing a status code selector.
#[derive(Debug, Clone, Copy, PartialEq, Eq, Hash, Structural)]
pub enum StatusCodeSelectorError {
    /// The input is empty or blank.
    InvalidInput,
    /// One of the ranges could not be parsed.
    AcceptRangeError(AcceptRangeError),
}

/// The message of a [`StatusCodeSelectorError`].
pub open spec fn selector_error_message(e: StatusCodeSelectorError) -> Seq<char> {
    match e {
        StatusCodeSelectorError::InvalidInput => "invalid/empty input"@,
        StatusCodeSelectorError::AcceptRangeError(r) => "failed to parse range: "@
            + accept_range_error_message(r),
    }
}

impl StatusCodeSelectorError {
    /// The message describing this error.
    pub fn message(&self) -> (r: String)
        ensures
            r@ == selector_error_message(*self),
    {
        let mut out: Vec<char> = Vec::new();
        match self {
            StatusCodeSelectorError::InvalidInput => append_str(&mut out, "invalid/empty input"),
            StatusCodeSelectorError::AcceptRangeError(r) => {
                append_str(&mut out, "failed to parse range: ");
                append_str(&mut out, r.message());
            },
        }
        string_of(out.as_slice())
    }
}

/// A [`StatusCodeSelector`] holds ranges of HTTP status codes, and determines
/// whether a specific code is matched, so the link can be counted as valid
/// (not broken). As this is meant to select valid status codes, the default
/// includes every informational and successful status.
#[derive(Clone, Debug, PartialEq, Eq)]
pub struct StatusCodeSelector {
    ranges: Vec<AcceptRange>,
}

impl View for StatusCodeSelector {
    type V = Seq<(u16, u16)>;

    closed spec fn view(&self) -> Seq<(u16, u16)> {
        range_views(self.ranges@)
    }
}

/// The ranges of the default [`StatusCodeSelector`].
pub open spec fn default_selector_ranges() -> Seq<(u16, u16)> {
    seq![(100u16, 103u16), (200u16, 299u16)]
}

impl StatusCodeSelector {
    /// Creates a new empty [`StatusCodeSelector`].
    pub fn new() -> (r: Self)
        ensures
            r@ == Seq::<(u16, u16)>::empty(),
    {
        let r = Self { ranges: Vec::new() };
        assert(r@ =~= Seq::<(u16, u16)>::empty());
        r
    }

    /// Creates a new empty selector.
    pub fn empty() -> (r: Self)
        ensures
            r@ == Seq::<(u16, u16)>::empty(),
    {
        Self::new()
    }

    /// The selector where 100..=103 and 200..=299 are selected: the status
    /// codes which are accepted by default.
    pub fn default_accepted() -> (r: Self)
        ensures
            r@ == default_selector_ranges(),
    {
        let mut v: Vec<AcceptRange> = Vec::new();
        v.push(AcceptRange::new(100, 103));
        v.push(AcceptRange::new(200, 299));
        let r = Self::new_from(v);
        proof {
            let rv = range_views(v@);
            let e = Seq::<(u16, u16)>::empty();
            assert(rv =~= seq![(100u16, 103u16), (200u16, 299u16)]);
            assert(rv.drop_last() =~= seq![(100u16, 103u16)]);
            assert(rv.drop_last().drop_last() =~= e);
            assert(add_ranges_spec(e, rv.drop_last().drop_last()) == e);
            let r1 = add_range_spec(e, (100u16, 103u16));
            assert(r1 =~= seq![(100u16, 103u16)]);
            assert(add_ranges_spec(e, rv.drop_last()) == r1);
            let r2 = add_range_spec(r1, (200u16, 299u16));
            assert(r2 =~= default_selector_ranges());
        }
        r
    }

    /// The default selector; see [`StatusCodeSelector::default_accepted`].
    pub fn default() -> (r: Self)
        ensures
            r@ == default_selector_ranges(),
    {
        Self::default_accepted()
    }

    /// Creates a new [`StatusCodeSelector`] prefilled with `ranges`, added in turn.
    pub fn new_from(ranges: Vec<AcceptRange>) -> (r: Self)
        ensures
            r@ == add_ranges_spec(seq![], range_views(ranges@)),
    {
        let mut selector = Self::new();
        add_ranges_to(&mut selector.ranges, ranges);
        selector
    }

    /// Parses a comma-separated list of ranges; blank input is refused.
    pub fn from_str(input: &str) -> (r: Result<Self, StatusCodeSelectorError>)
        ensures
            trim(input@).len() == 0 ==> r == Err::<Self, StatusCodeSelectorError>(
                StatusCodeSelectorError::InvalidInput,
            ),
            trim(input@).len() > 0 ==> match parse_range_selector(input@) {
                Ok(rs) => (r matches Ok(x) && x@ == rs),
                Err(e) => r == Err::<Self, StatusCodeSelectorError>(
                    StatusCodeSelectorError::AcceptRangeError(e),
                ),
            },
    {
        let chars = chars_of(input);
        let trimmed = trim_chars(chars.as_slice());
        if trimmed.len() == 0 {
            return Err(StatusCodeSelectorError::InvalidInput);
        }
        match parse_ranges(input) {
            Ok(v) => Ok(Self::new_from(v)),
            Err(e) => Err(StatusCodeSelectorError::AcceptRangeError(e)),
        }
    }

    /// Adds a range of HTTP status codes, merging it into the last range if
    /// the two overlap.
    pub fn add_range(&mut self, range: AcceptRange) -> (r: &mut Self)
        ensures
            (*r)@ == add_range_spec(old(self)@, range@),
            *final(self) == *final(r),
    {
        add_range_to(&mut self.ranges, range);
        self
    }

    /// Returns whether this selector contains `value`.
    pub fn contains(&self, value: u16) -> (r: bool)
        ensures
            r == ranges_hold(self@, value),
    {
        ranges_contain(&self.ranges, value)
    }

    /// The set of all selected codes.
    pub fn into_set(self) -> (r: HashSet<u16>)
        ensures
            r@ == Set::new(|v: u16| ranges_hold(self@, v)),
    {
        ranges_to_set(&self.ranges)
    }

    /// The number of ranges in this selector.
    pub fn len(&self) -> (r: usize)
        ensures
            r == self@.len(),
    {
        self.ranges.len()
    }

    /// The textual form `r1,r2,...`, each range written `start..=end`.
    pub fn to_string(&self) -> (r: String)
        ensures
            r@ == ranges_text(self@),
    {
        ranges_to_string(&self.ranges)
    }

    /// Every selected code, range by range in ascending order.
    pub fn codes(&self) -> (r: Vec<u16>)
        ensures
            r@ == ranges_codes_spec(self@),
            forall|v: u16| r@.contains(v) <==> ranges_hold(self@, v),
    {
        ranges_codes(&self.ranges)
    }
}

/// A [`StatusCodeExcluder`] holds ranges of HTTP status codes which are
/// excluded. As this is meant to exclude status codes, the default is to
/// keep everything.
#[derive(Clone, Debug, PartialEq, Eq)]
pub struct StatusCodeExcluder {
    ranges: Vec<AcceptRange>,
}

impl View for StatusCodeExcluder {
    type V = Seq<(u16, u16)>;

    closed spec fn view(&self) -> Seq<(u16, u16)> {
        range_views(self.ranges@)
    }
}

impl StatusCodeExcluder {
    /// Creates a new empty [`StatusCodeExcluder`].
    pub fn new() -> (r: Self)
        ensures
            r@ == Seq::<(u16, u16)>::empty(),
    {
        let r = Self { ranges: Vec::new() };
        assert(r@ =~= Seq::<(u16, u16)>::empty());
        r
    }

    /// The default excluder, which excludes nothing.
    pub fn default() -> (r: Self)
        ensures
            r@ == Seq::<(u16, u16)>::empty(),
    {
        Self::new()
    }

    /// Creates a new [`StatusCodeExcluder`] prefilled with `ranges`, added in turn.
    pub fn new_from(ranges: Vec<AcceptRange>) -> (r: Self)
        ensures
            r@ == add_ranges_spec(seq![], range_views(ranges@)),
    {
        let mut selector = Self::new();
        add_ranges_to(&mut selector.ranges, ranges);
        selector
    }

    /// Parses a comma-separated list of ranges; blank input excludes nothing.
    pub fn from_str(input: &str) -> (r: Result<Self, StatusCodeSelectorError>)
        ensures
            trim(input@).len() == 0 ==> (r matches Ok(x) && x@ == Seq::<(u16, u16)>::empty()),
            trim(input@).len() > 0 ==> match parse_range_selector(input@) {
                Ok(rs) => (r matches Ok(x) && x@ == rs),
                Err(e) => r == Err::<Self, StatusCodeSelectorError>(
                    StatusCodeSelectorError::AcceptRangeError(e),
                ),
            },
    {
        let chars = chars_of(input);
        let trimmed = trim_chars(chars.as_slice());
        if trimmed.len() == 0 {
            return Ok(Self::new());
        }
        match parse_ranges(input) {
            Ok(v) => Ok(Self::new_from(v)),
            Err(e) => Err(StatusCodeSelectorError::AcceptRangeError(e)),
        }
    }

    /// Adds a range of HTTP status codes, merging it into the last range if
    /// the two overlap.
    pub fn add_range(&mut self, range: AcceptRange) -> (r: &mut Self)
        ensures
            (*r)@ == add_range_spec(old(self)@, range@),
            *final(self) == *final(r),
    {
        add_range_to(&mut self.ranges, range);
        self
    }

    /// Returns whether this excluder contains `value`.
    pub fn contains(&self, value: u16) -> (r: bool)
        ensures
            r == ranges_hold(self@, value),
    {
        ranges_contain(&self.ranges, value)
    }

    /// Consumes self and creates a [`HashSet`] which contains all
    /// excluded status codes.
    pub fn into_set(self) -> (r: HashSet<u16>)
        ensures
            r@ == Set::new(|v: u16| ranges_hold(self@, v)),
    {
        ranges_to_set(&self.ranges)
    }

    /// The number of ranges in this excluder.
    pub fn len(&self) -> (r: usize)
        ensures
            r == self@.len(),
    {
        self.ranges.len()
    }

    /// The textual form `r1,r2,...`, each range written `start..=end`.
    pub fn to_string(&self) -> (r: String)
        ensures
            r@ == ranges_text(self@),
    {
        ranges_to_string(&self.ranges)
    }
}

/// An HTTP status code (`http::StatusCode`) together with its number, the
/// code's view. Only [`status_code_from_u16`] makes one, taking the number
/// from the code itself.
#[derive(Debug, Clone, Copy, PartialEq, Eq, Hash)]
pub struct HttpStatusCode {
    code: StatusCode,
    number: u16,
}

impl View for HttpStatusCode {
    type V = u16;

    closed spec fn view(&self) -> u16 {
        self.number
    }
}

impl HttpStatusCode {
    /// The number of this status code.
    pub fn as_u16(&self) -> (r: u16)
        ensures
            r == self@,
    {
        self.number
    }

    /// The status code as the `http` crate's type.
    pub fn status_code(&self) -> StatusCode {
        self.code
    }
}

/// The numbers of a sequence of status codes.
pub open spec fn status_numbers(v: Seq<HttpStatusCode>) -> Seq<u16> {
    v.map_values(|c: HttpStatusCode| c@)
}

/// Converts a number into an HTTP status code (`StatusCode::from_u16`),
/// which succeeds exactly for numbers from 100 to 999, as its documentation
/// states; the code made holds that number (`StatusCode::as_u16`).
#[verifier::external_body]
fn status_code_from_u16(code: u16) -> (r: Result<HttpStatusCode, InvalidStatusCode>)
    ensures
        r is Ok <==> 100 <= code <= 999,
        r matches Ok(c) ==> c@ == code,
{
    match StatusCode::from_u16(code) {
        Ok(c) => Ok(HttpStatusCode { code: c, number: c.as_u16() }),
        Err(e) => Err(e),
    }
}

/// Converts each number into an HTTP status code, in order; fails on the
/// first number that is not between 100 and 999.
pub fn status_codes_of(codes: &Vec<u16>) -> (r: Result<Vec<HttpStatusCode>, InvalidStatusCode>)
    ensures
        r is Ok <==> forall|i: int| 0 <= i < codes.len() ==> 100 <= #[trigger] codes@[i] <= 999,
        r matches Ok(v) ==> status_numbers(v@) == codes@,
{
    let mut out: Vec<HttpStatusCode> = Vec::new();
    let mut i: usize = 0;
    while i < codes.len()
        invariant
            i <= codes.len(),
            status_numbers(out@) == codes@.take(i as int),
            forall|j: int| 0 <= j < i ==> 100 <= #[trigger] codes@[j] <= 999,
        decreases codes.len() - i,
    {
        match status_code_from_u16(codes[i]) {
            Ok(c) => {
                let ghost before = status_numbers(out@);
                out.push(c);
                assert(status_numbers(out@) =~= before.push(c@));
                assert(codes@.take(i + 1) =~= codes@.take(i as int).push(codes@[i as int]));
            },
            Err(e) => return Err(e),
        }
        i += 1;
    }
    assert(codes@.take(codes.len() as int) =~= codes@);
    Ok(out)
}

/// The codes accepted by default, as HTTP status codes: 100 to 103, then
/// 200 to 299, in ascending order. All of them are valid status codes, so
/// the conversion never fails.
pub fn default_accepted_status_codes() -> (r: Vec<HttpStatusCode>)
    ensures
        status_numbers(r@) == ranges_codes_spec(default_selector_ranges()),
        forall|v: u16| status_numbers(r@).contains(v) <==> (100 <= v <= 103 || 200 <= v <= 299),
        r.len() == 104,
{
    let selector = StatusCodeSelector::default_accepted();
    let codes = selector.codes();
    proof {
        assert forall|i: int| 0 <= i < codes.len() implies 100 <= #[trigger] codes@[i] <= 999 by {
            assert(codes@.contains(codes@[i]));
            let k = choose|k: int|
                0 <= k < selector@.len() && #[trigger] range_holds(selector@[k], codes@[i]);
            assert(k == 0 || k == 1);
        }
    }
    match status_codes_of(&codes) {
        Ok(v) => {
            proof {
                let d = default_selector_ranges();
                assert(d.drop_last() =~= seq![(100u16, 103u16)]);
                assert(d.drop_last().drop_last() =~= Seq::<(u16, u16)>::empty());
                assert(ranges_codes_spec(d.drop_last().drop_last()).len() == 0);
                assert(range_codes((100u16, 103u16)).len() == 4);
                assert(range_codes((200u16, 299u16)).len() == 100);
                assert(ranges_codes_spec(d.drop_last()).len() == 4);
                assert(ranges_codes_spec(d).len() == 104);
                assert(status_numbers(v@).len() == v@.len());
                assert forall|x: u16| status_numbers(v@).contains(x) <==> (100 <= x <= 103 || 200
                    <= x <= 299) by {
                    if ranges_hold(d, x) {
                        let k = choose|k: int| 0 <= k < d.len() && #[trigger] range_holds(d[k], x);
                        assert(k == 0 || k == 1);
                    }
                    if 100 <= x <= 103 {
                        assert(range_holds(d[0], x));
                    }
                    if 200 <= x <= 299 {
                        assert(range_holds(d[1], x));
                    }
                }
            }
            v
        },
        Err(_) => {
            assert(false);
            Vec::new()
        },
    }
}

} // verus!
