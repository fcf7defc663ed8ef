//! Splitting a template string into components: literal runs and `{...}`
//! expressions.  The scanner walks a byte buffer and yields, one at a time,
//! the kind of the next component and the byte range of its text (for an
//! expression, the text between the braces).

use vstd::prelude::*;

verus! {

/// A scan failure: the input ended inside an unterminated `{...}`
/// expression, or held a character the scanner rejects.
#[derive(Debug)]
pub enum Error {
    UnexpectedEndOfData,
    InvalidCharacter,
}

/// The kind of one scanned component.
#[derive(Copy, Clone, Debug, PartialEq, Eq, Structural)]
pub enum ComponentType {
    Literal,
    Variable,
}

/// The smallest index at or after `from` holding the byte `b`, if any.
pub open spec fn find_byte(s: Seq<u8>, from: int, b: u8) -> Option<int>
    decreases s.len() - from,
{
    if from < 0 || from >= s.len() {
        None
    } else if s[from] == b {
        Some(from)
    } else {
        find_byte(s, from + 1, b)
    }
}

proof fn lemma_find_byte(s: Seq<u8>, from: int, b: u8)
    requires
        0 <= from,
    ensures
        match find_byte(s, from, b) {
            Some(j) => from <= j < s.len() && s[j] == b && forall|k: int|
                from <= k < j ==> s[k] != b,
            None => forall|k: int| from <= k < s.len() ==> s[k] != b,
        },
    decreases s.len() - from,
{
    if from < s.len() && s[from] != b {
        lemma_find_byte(s, from + 1, b);
    }
}

/// The scanner's position in its buffer.
pub ghost struct ComponentScannerView {
    pub bytes: Seq<u8>,
    pub cursor: int,
}

/// A cursor over a byte buffer that yields one component per call.
pub struct ComponentScanner<'a> {
    buf: &'a [u8],
    cur: usize,
}

impl<'a> View for ComponentScanner<'a> {
    type V = ComponentScannerView;

    closed spec fn view(&self) -> ComponentScannerView {
        ComponentScannerView { bytes: self.buf@, cursor: self.cur as int }
    }
}

/// What one scanning step from cursor `c` over bytes `b` must yield: the
/// component (or the end of input, or an unterminated-expression error) and
/// the new cursor position.
pub open spec fn scan_step_ok(
    b: Seq<u8>,
    c: int,
    r: Result<Option<(ComponentType, core::ops::Range<usize>)>, Error>,
    c2: int,
) -> bool {
    if c >= b.len() {
        r matches Ok(None) && c2 == c
    } else if b[c] == 0x7b {
        match find_byte(b, c + 1, 0x7d) {
            Some(j) => r matches Ok(Some((t, rng))) && t == ComponentType::Variable && rng.start
                == c + 1 && rng.end == j && c2 == j + 1,
            None => r matches Err(e) && e is UnexpectedEndOfData && c2 == c,
        }
    } else {
        match find_byte(b, c + 1, 0x7b) {
            Some(j) => r matches Ok(Some((t, rng))) && t == ComponentType::Literal && rng.start == c
                && rng.end == j && c2 == j,
            None => r matches Ok(Some((t, rng))) && t == ComponentType::Literal && rng.start == c
                && rng.end == b.len() && c2 == b.len(),
        }
    }
}

impl<'a> ComponentScanner<'a> {
    /// A scanner at the start of the given buffer.
    pub fn new(buf: &'a [u8]) -> (r: ComponentScanner<'a>)
        ensures
            r@.bytes == buf@,
            r@.cursor == 0,
    {
        ComponentScanner { buf, cur: 0 }
    }

    /// The next component of the buffer: a literal run up to the next `{`
    /// or the end of input, or the text between `{` and the next `}`.
    /// Reaching the end of input inside an expression is an error.
    pub fn next_component(&mut self) -> (r: Result<
        Option<(ComponentType, core::ops::Range<usize>)>,
        Error,
    >)
        requires
            old(self)@.cursor <= old(self)@.bytes.len(),
        ensures
            final(self)@.bytes == old(self)@.bytes,
            old(self)@.cursor <= final(self)@.cursor <= old(self)@.bytes.len(),
            scan_step_ok(old(self)@.bytes, old(self)@.cursor, r, final(self)@.cursor),
    {
        let start = self.cur;
        let n = self.buf.len();
        if start >= n {
            return Ok(None);
        }
        if self.buf[start] == 0x7b {
            let mut i = start + 1;
            while i < n
                invariant
                    start + 1 <= i <= n,
                    n == self.buf@.len(),
                    start < n,
                    self.cur == start,
                    self@ == old(self)@,
                    self.buf@[start as int] == 0x7b,
                    forall|k: int| start + 1 <= k < i ==> self.buf@[k] != 0x7d,
                decreases n - i,
            {
                if self.buf[i] == 0x7d {
                    self.cur = i + 1;
                    proof {
                        lemma_find_byte(self.buf@, start + 1, 0x7d);
                        assert(self.buf@[i as int] == 0x7d);
                        assert(find_byte(self.buf@, start + 1, 0x7d) == Some(i as int));
                    }
                    return Ok(Some((ComponentType::Variable, (start + 1)..i)));
                }
                i = i + 1;
            }
            proof {
                lemma_find_byte(self.buf@, start + 1, 0x7d);
            }
            Err(Error::UnexpectedEndOfData)
        } else {
            let mut i = start + 1;
            while i < n
                invariant
                    start + 1 <= i <= n,
                    n == self.buf@.len(),
                    start < n,
                    self.cur == start,
                    self@ == old(self)@,
                    self.buf@[start as int] != 0x7b,
                    forall|k: int| start + 1 <= k < i ==> self.buf@[k] != 0x7b,
                decreases n - i,
            {
                if self.buf[i] == 0x7b {
                    self.cur = i;
                    proof {
                        lemma_find_byte(self.buf@, start + 1, 0x7b);
                        assert(self.buf@[i as int] == 0x7b);
                        assert(find_byte(self.buf@, start + 1, 0x7b) == Some(i as int));
                    }
                    return Ok(Some((ComponentType::Literal, start..i)));
                }
                i = i + 1;
            }
            self.cur = n;
            proof {
                lemma_find_byte(self.buf@, start + 1, 0x7b);
            }
            Ok(Some((ComponentType::Literal, start..n)))
        }
    }
}

} // verus!
