//! Line and column of a byte offset in a document.
use vstd::prelude::*;
use vstd::string::StringSliceAdditionalSpecFns;
use vstd::utf8::{decode_utf8, encode_utf8_decode_utf8, is_char_boundary};

use crate::uri::RawUriSpan;

verus! {

/// The byte offsets at which the lines of a document start: 0, and the
/// offset after each newline.
pub open spec fn line_starts(b: Seq<u8>) -> Seq<int>
    decreases b.len(),
{
    if b.len() == 0 {
        seq![0]
    } else {
        let p = line_starts(b.drop_last());
        if b.last() == 10u8 {
            p.push(b.len() as int)
        } else {
            p
        }
    }
}

/// The index of the line in which an offset falls: the last line start at
/// or before it.
pub open spec fn line_index(starts: Seq<int>, offset: int) -> int
    decreases starts.len(),
{
    if starts.len() <= 1 {
        0
    } else if starts.last() <= offset {
        starts.len() - 1
    } else {
        line_index(starts.drop_last(), offset)
    }
}

/// Whether `b[from..to]` can be taken as text: both ends are character
/// boundaries and they are in order (`str::get`).
pub open spec fn text_range(b: Seq<u8>, from: int, to: int) -> bool {
    from <= to && to <= b.len() && is_char_boundary(b, from) && is_char_boundary(b, to)
}

/// The number of characters in `b[from..to]`.
pub open spec fn chars_in(b: Seq<u8>, from: int, to: int) -> int {
    decode_utf8(b.subrange(from, to)).len() as int
}

/// One more than `n`, or the largest `usize` when that does not fit.
pub open spec fn successor(n: int) -> int {
    if n + 1 > usize::MAX {
        usize::MAX as int
    } else {
        n + 1
    }
}

/// The line (1-based) and column (1-based, when it can be computed) of a
/// byte offset in a document. The column counts the characters from the
/// start of the line to the offset, or to the end of the document when the
/// offset is not at a character boundary.
pub open spec fn span_of(b: Seq<u8>, offset: int) -> (int, Option<int>) {
    let starts = line_starts(b);
    let line = line_index(starts, offset);
    let from = starts[line];
    let column = if text_range(b, from, offset) {
        Some(successor(chars_in(b, from, offset)))
    } else if text_range(b, from, b.len() as int) {
        Some(successor(chars_in(b, from, b.len() as int)))
    } else {
        None
    };
    (successor(line), column)
}

/// Line starts begin at 0, increase strictly, and do not pass the end.
pub proof fn lemma_line_starts(b: Seq<u8>)
    ensures
        line_starts(b).len() >= 1,
        line_starts(b)[0] == 0,
        line_starts(b).len() <= b.len() + 1,
        forall|i: int, j: int|
            0 <= i < j < line_starts(b).len() ==> #[trigger] line_starts(b)[i] < #[trigger] line_starts(
                b,
            )[j],
        forall|i: int| 0 <= i < line_starts(b).len() ==> 0 <= #[trigger] line_starts(b)[i] <= b.len(),
    decreases b.len(),
{
    if b.len() > 0 {
        lemma_line_starts(b.drop_last());
    }
}

proof fn lemma_line_index(starts: Seq<int>, offset: int, k: int)
    requires
        starts.len() >= 1,
        starts[0] <= offset,
        forall|i: int, j: int| 0 <= i < j < starts.len() ==> #[trigger] starts[i] < #[trigger] starts[j],
        0 <= k < starts.len(),
        starts[k] <= offset,
        k + 1 == starts.len() || offset < starts[k + 1],
    ensures
        line_index(starts, offset) == k,
    decreases starts.len(),
{
    if starts.len() > 1 {
        if starts.last() <= offset {
            if k + 1 < starts.len() {
                assert(starts[k + 1] <= starts.last());
            }
        } else {
            lemma_line_index(starts.drop_last(), offset, k);
        }
    }
}

/// Computes the spans of byte offsets in a document, with the line starts
/// computed once.
#[derive(Clone, Debug)]
pub struct SourceSpanProvider<'a> {
    line_starts: Vec<usize>,
    input: &'a str,
}

/// The offsets as integers.
pub open spec fn as_ints(v: Seq<usize>) -> Seq<int> {
    v.map_values(|x: usize| x as int)
}

impl<'a> SourceSpanProvider<'a> {
    /// The line starts are those of the input.
    pub closed spec fn well_formed(&self) -> bool {
        as_ints(self.line_starts@) == line_starts(self.input.spec_bytes())
    }

    /// The document.
    pub closed spec fn document(&self) -> Seq<u8> {
        self.input.spec_bytes()
    }

    /// A provider for the given document.
    pub fn from_input(input: &'a str) -> (r: Self)
        ensures
            r.well_formed(),
            r.document() == input.spec_bytes(),
    {
        let bytes = input.as_bytes();
        let ghost b = input.spec_bytes();
        let mut starts: Vec<usize> = Vec::new();
        starts.push(0);
        let mut i: usize = 0;
        assert(b.take(0) =~= Seq::<u8>::empty());
        assert(as_ints(starts@) =~= seq![0int]);
        while i < bytes.len()
            invariant
                i <= bytes.len(),
                bytes@ == b,
                as_ints(starts@) == line_starts(b.take(i as int)),
            decreases bytes.len() - i,
        {
            assert(b.take(i + 1).drop_last() =~= b.take(i as int));
            assert(b.take(i + 1).last() == bytes@[i as int]);
            if bytes[i] == 10u8 {
                let ghost before = as_ints(starts@);
                starts.push(i + 1);
                assert(as_ints(starts@) =~= before.push(i + 1));
            }
            i += 1;
        }
        assert(b.take(bytes.len() as int) =~= b);
        SourceSpanProvider { line_starts: starts, input }
    }

    /// The span of a byte offset in the document.
    pub fn span(&self, offset: usize) -> (r: RawUriSpan)
        requires
            self.well_formed(),
        ensures
            (r.line as int, match r.column {
                Some(c) => Some(c as int),
                None => None,
            }) == span_of(self.document(), offset as int),
    {
        let ghost b = self.input.spec_bytes();
        let ghost starts = line_starts(b);
        proof {
            lemma_line_starts(b);
            assert(self.line_starts@.len() == starts.len());
            assert(forall|i: int| 0 <= i < starts.len() ==> starts[i] == #[trigger] self.line_starts@[i]);
        }
        let n = self.line_starts.len();
        let mut lo: usize = 0;
        let mut hi: usize = n;
        while lo + 1 < hi
            invariant
                0 <= lo < hi <= n,
                n == self.line_starts.len(),
                n == starts.len(),
                forall|i: int| 0 <= i < starts.len() ==> starts[i] == #[trigger] self.line_starts@[i],
                starts[lo as int] <= offset,
                hi == n || offset < starts[hi as int],
            decreases hi - lo,
        {
            let mid = lo + (hi - lo) / 2;
            if self.line_starts[mid] <= offset {
                lo = mid;
            } else {
                hi = mid;
            }
        }
        proof {
            if lo + 1 < n {
                assert(hi == lo + 1);
            }
            lemma_line_index(starts, offset as int, lo as int);
        }
        let line = lo;
        let from = self.line_starts[line];
        let len = self.input.as_bytes().len();
        proof {
            vstd::utf8::encode_utf8_valid_utf8(self.input@);
            vstd::utf8::is_char_boundary_start_end_of_seq(b);
            assert(len == b.len());
            assert(from as int == starts[line as int]);
        }
        let column = if from <= offset && offset <= len && self.input.is_char_boundary(from)
            && self.input.is_char_boundary(offset) {
            Some(self.count_chars(from, offset).saturating_add(1))
        } else if from <= len && self.input.is_char_boundary(from) {
            Some(self.count_chars(from, len).saturating_add(1))
        } else {
            None
        };
        RawUriSpan { line: line.saturating_add(1), column }
    }

    fn count_chars(&self, from: usize, to: usize) -> (r: usize)
        requires
            text_range(self.input.spec_bytes(), from as int, to as int),
        ensures
            r as int == chars_in(self.input.spec_bytes(), from as int, to as int),
            r <= to - from,
    {
        let ghost b = self.input.spec_bytes();
        proof {
            vstd::utf8::encode_utf8_valid_utf8(self.input@);
            vstd::utf8::valid_utf8_split(b, from as int);
        }
        let (_, rest) = self.input.split_at(from);
        let ghost rb = rest.spec_bytes();
        assert(rb =~= b.subrange(from as int, b.len() as int));
        proof {
            if to as int == b.len() {
                vstd::utf8::is_char_boundary_start_end_of_seq(rb);
                assert(rb.len() == to - from);
            } else {
                vstd::utf8::is_char_boundary_iff_not_is_continuation_byte(b, to as int);
                vstd::utf8::is_char_boundary_iff_not_is_continuation_byte(rb, to - from);
                assert(rb[to - from] == b[to as int]);
            }
        }
        let (mid, _) = rest.split_at(to - from);
        assert(mid.spec_bytes() =~= b.subrange(from as int, to as int));
        proof {
            encode_utf8_decode_utf8(mid@);
            lemma_encoding_not_shorter(mid@);
        }
        mid.unicode_len()
    }
}

/// The UTF-8 encoding of a text has at least as many bytes as the text has
/// characters.
proof fn lemma_encoding_not_shorter(s: Seq<char>)
    ensures
        vstd::utf8::encode_utf8(s).len() >= s.len(),
    decreases s.len(),
{
    if s.len() > 0 {
        lemma_encoding_not_shorter(s.drop_first());
    }
}

/// The span of a byte offset in a document, taken from a given offset in
/// it: offsets given to it are relative to `offset`.
pub struct OffsetSpanProvider<'a, 'b> {
    /// The offset in the document from which offsets are counted.
    pub offset: usize,
    /// The provider for the whole document.
    pub inner: &'b SourceSpanProvider<'a>,
}

impl<'a, 'b> OffsetSpanProvider<'a, 'b> {
    /// The span of the byte offset `offset` after the start offset.
    pub fn span(&self, offset: usize) -> (r: RawUriSpan)
        requires
            self.inner.well_formed(),
            self.offset + offset <= usize::MAX,
        ensures
            (r.line as int, match r.column {
                Some(c) => Some(c as int),
                None => None,
            }) == span_of(self.inner.document(), self.offset + offset),
    {
        self.inner.span(self.offset + offset)
    }
}

/// A span with a line and a column, both 1-based.
pub fn span(line: usize, column: usize) -> (r: RawUriSpan)
    requires
        line >= 1,
        column >= 1,
    ensures
        r == (RawUriSpan { line, column: Some(column) }),
{
    RawUriSpan { line, column: Some(column) }
}

/// A span with a line, 1-based, and no column.
pub fn span_line(line: usize) -> (r: RawUriSpan)
    requires
        line >= 1,
    ensures
        r == (RawUriSpan { line, column: None }),
{
    RawUriSpan { line, column: None }
}

} // verus!
