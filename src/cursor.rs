//! A position over the source text, and the scanning steps the grammar is built from.
//!
//! Every step either matches and moves forward, or leaves the position where it was.
use crate::error::{ErrorKind, ParseError};
use vstd::prelude::*;

verus! {

/// The classes of characters that the scanner consumes runs of.
#[derive(Debug, Clone, Copy, PartialEq, Eq, Structural)]
pub enum CharClass {
    /// A space (tabs are not blanks in this language).
    Space,
    /// A space, a carriage return or a line feed.
    Blank,
    Digit,
    HexDigit,
    /// Anything but a space, `:` or `{`.
    NameChar,
}

impl CharClass {
    pub open spec fn has(self, c: char) -> bool {
        match self {
            CharClass::Space => c == ' ',
            CharClass::Blank => c == ' ' || c == '\r' || c == '\n',
            CharClass::Digit => '0' <= c <= '9',
            CharClass::HexDigit => ('0' <= c <= '9') || ('a' <= c <= 'f') || ('A' <= c <= 'F'),
            CharClass::NameChar => !(c == ' ' || c == ':' || c == '{'),
        }
    }

    pub fn contains(&self, c: char) -> (r: bool)
        ensures
            r == self.has(c),
    {
        match self {
            CharClass::Space => c == ' ',
            CharClass::Blank => c == ' ' || c == '\r' || c == '\n',
            CharClass::Digit => '0' <= c && c <= '9',
            CharClass::HexDigit => ('0' <= c && c <= '9') || ('a' <= c && c <= 'f') || ('A' <= c
                && c <= 'F'),
            CharClass::NameChar => !(c == ' ' || c == ':' || c == '{'),
        }
    }
}

/// The end of the run of `k` characters that starts at `p`.
#[verifier::opaque]
pub open spec fn scan(s: Seq<char>, p: int, k: CharClass) -> int
    decreases s.len() - p,
{
    if 0 <= p < s.len() && k.has(s[p]) {
        scan(s, p + 1, k)
    } else {
        p
    }
}

/// The length of the line break at `p`: 1 for `\n`, 2 for `\r\n`, 0 where there is none.
pub open spec fn newline_len(s: Seq<char>, p: int) -> int {
    if 0 <= p < s.len() && s[p] == '\n' {
        1
    } else if 0 <= p && p + 1 < s.len() && s[p] == '\r' && s[p + 1] == '\n' {
        2
    } else {
        0
    }
}

/// The position after the run of line breaks that starts at `p`.
#[verifier::opaque]
pub open spec fn skip_newlines(s: Seq<char>, p: int) -> int
    decreases s.len() - p,
{
    if 0 <= p < s.len() && newline_len(s, p) > 0 {
        skip_newlines(s, p + newline_len(s, p))
    } else {
        p
    }
}

/// The position of the first line break (or of the end) at or after `p`.
#[verifier::opaque]
pub open spec fn line_end(s: Seq<char>, p: int) -> int
    decreases s.len() - p,
{
    if 0 <= p < s.len() && newline_len(s, p) == 0 {
        line_end(s, p + 1)
    } else {
        p
    }
}

/// Whether `lit` stands in `s` at `p`.
pub open spec fn starts_with(s: Seq<char>, p: int, lit: Seq<char>) -> bool {
    0 <= p && p + lit.len() <= s.len() && s.subrange(p, p + lit.len()) == lit
}

pub open spec fn error_at(kind: ErrorKind, p: int, important: bool) -> ParseError {
    ParseError { kind, position: p as usize, important }
}

/// Running out of text where more is required is always final.
pub open spec fn eof_at(p: int) -> ParseError {
    error_at(ErrorKind::UnexpectedEof, p, true)
}

pub proof fn lemma_scan(s: Seq<char>, p: int, k: CharClass)
    requires
        0 <= p <= s.len(),
    ensures
        p <= scan(s, p, k) <= s.len(),
        scan(s, p, k) < s.len() ==> !k.has(s[scan(s, p, k)]),
        forall|i: int| p <= i < scan(s, p, k) ==> k.has(#[trigger] s[i]),
    decreases s.len() - p,
{
    reveal(scan);
    if p < s.len() && k.has(s[p]) {
        lemma_scan(s, p + 1, k);
    }
}

/// A run of `k` characters from `a` to `b` that nothing of `k` follows is what `scan` reads.
pub proof fn lemma_scan_run(s: Seq<char>, a: int, b: int, k: CharClass)
    requires
        0 <= a <= b <= s.len(),
        forall|i: int| a <= i < b ==> k.has(#[trigger] s[i]),
        b == s.len() || !k.has(s[b]),
    ensures
        scan(s, a, k) == b,
    decreases b - a,
{
    reveal(scan);
    if a < b {
        lemma_scan_run(s, a + 1, b, k);
    }
}

pub proof fn lemma_skip_newlines(s: Seq<char>, p: int)
    requires
        0 <= p <= s.len(),
    ensures
        p <= skip_newlines(s, p) <= s.len(),
    decreases s.len() - p,
{
    reveal(skip_newlines);
    if p < s.len() && newline_len(s, p) > 0 {
        lemma_skip_newlines(s, p + newline_len(s, p));
    }
}

pub proof fn lemma_line_end(s: Seq<char>, p: int)
    requires
        0 <= p <= s.len(),
    ensures
        p <= line_end(s, p) <= s.len(),
        line_end(s, p) < s.len() ==> newline_len(s, line_end(s, p)) > 0,
    decreases s.len() - p,
{
    reveal(line_end);
    if p < s.len() && newline_len(s, p) == 0 {
        lemma_line_end(s, p + 1);
    }
}

/// Relies on `str::chars`: the characters of the text, in order.
#[verifier::external_body]
fn chars_of(text: &str) -> (r: Vec<char>)
    ensures
        r@ == text@,
{
    text.chars().collect()
}

/// A saved position, to come back to after a look ahead.
#[derive(Debug, Clone, Copy)]
pub struct Checkpoint {
    pub pos: usize,
}

/// The parser's state: the source text and a position in it, counted in characters.
pub struct Parser<'doc> {
    pub text: &'doc str,
    pub chars: Vec<char>,
    pub pos: usize,
}

impl<'doc> Parser<'doc> {
    pub open spec fn src(&self) -> Seq<char> {
        self.chars@
    }

    pub open spec fn at(&self) -> int {
        self.pos as int
    }

    pub open spec fn wf(&self) -> bool {
        &&& self.chars@ == self.text@
        &&& self.pos <= self.chars.len()
    }

    /// What a step from `self` to `after` that returned `r` must be, where the grammar says
    /// `expect`: the same value and end position, or the same error.
    pub open spec fn stepped<T: View>(
        &self,
        after: &Parser<'doc>,
        r: Result<T, ParseError>,
        expect: Result<(T::V, int), ParseError>,
    ) -> bool {
        &&& after.wf()
        &&& after.src() == self.src()
        &&& after.text == self.text
        &&& self.at() <= after.at()
        &&& match expect {
            Ok((v, q)) => r is Ok && r->Ok_0@ == v && after.at() == q,
            Err(e) => r == Err::<T, ParseError>(e),
        }
    }

    /// A step that moved forward (or not) without a result of its own.
    pub open spec fn moved_to(&self, after: &Parser<'doc>, q: int) -> bool {
        &&& after.wf()
        &&& after.src() == self.src()
        &&& after.text == self.text
        &&& self.at() <= after.at()
        &&& after.at() == q
    }

    pub fn new(text: &'doc str) -> (r: Parser<'doc>)
        ensures
            r.wf(),
            r.src() == text@,
            r.at() == 0,
    {
        Parser { text, chars: chars_of(text), pos: 0 }
    }

    pub fn position(&self) -> (r: usize)
        ensures
            r == self.pos,
    {
        self.pos
    }

    pub fn is_eof(&self) -> (r: bool)
        requires
            self.wf(),
        ensures
            r == (self.at() >= self.src().len()),
    {
        self.pos >= self.chars.len()
    }

    pub fn checkpoint(&self) -> (r: Checkpoint)
        ensures
            r.pos == self.pos,
    {
        Checkpoint { pos: self.pos }
    }

    /// Goes back to a position saved earlier.
    pub fn restore(&mut self, c: Checkpoint)
        requires
            old(self).wf(),
            c.pos <= old(self).at(),
        ensures
            final(self).wf(),
            final(self).src() == old(self).src(),
            final(self).text == old(self).text,
            final(self).pos == c.pos,
    {
        self.pos = c.pos;
    }

    /// An error at the current position.
    pub fn error(&self, kind: ErrorKind, important: bool) -> (r: ParseError)
        ensures
            r == error_at(kind, self.at(), important),
    {
        ParseError { kind, position: self.pos, important }
    }

    /// Whether `lit` stands at the current position; nothing is consumed.
    pub fn peek(&self, lit: &str) -> (r: bool)
        requires
            self.wf(),
        ensures
            r == starts_with(self.src(), self.at(), lit@),
    {
        let n = lit.unicode_len();
        if n > self.chars.len() - self.pos {
            return false;
        }
        let mut i: usize = 0;
        while i < n
            invariant
                self.wf(),
                n == lit@.len(),
                self.pos + n <= self.chars.len(),
                i <= n,
                forall|j: int| 0 <= j < i ==> self.src()[self.at() + j] == lit@[j],
            decreases n - i,
        {
            if self.chars[self.pos + i] != lit.get_char(i) {
                assert(self.src().subrange(self.at(), self.at() + n)[i as int] != lit@[i as int]);
                return false;
            }
            i += 1;
        }
        assert(self.src().subrange(self.at(), self.at() + n) =~= lit@);
        true
    }

    /// Consumes `lit` where it stands; fails only at the end of the text.
    pub fn accept(&mut self, lit: &str) -> (r: Result<bool, ParseError>)
        requires
            old(self).wf(),
        ensures
            final(self).wf(),
            final(self).src() == old(self).src(),
            final(self).text == old(self).text,
            old(self).at() <= final(self).at(),
            old(self).at() >= old(self).src().len() ==> r == Err::<bool, ParseError>(
                eof_at(old(self).at()),
            ),
            old(self).at() < old(self).src().len() ==> {
                &&& r == Ok::<bool, ParseError>(starts_with(old(self).src(), old(self).at(), lit@))
                &&& final(self).at() == if r == Ok::<bool, ParseError>(true) {
                    old(self).at() + lit@.len()
                } else {
                    old(self).at()
                }
            },
    {
        if self.is_eof() {
            return Err(self.error(ErrorKind::UnexpectedEof, true));
        }
        if self.peek(lit) {
            self.pos = self.pos + lit.unicode_len();
            Ok(true)
        } else {
            Ok(false)
        }
    }

    /// Whether `c` stands at the current position; nothing is consumed.
    pub fn peek_char(&self, c: char) -> (r: bool)
        requires
            self.wf(),
        ensures
            r == (self.at() < self.src().len() && self.src()[self.at()] == c),
    {
        self.pos < self.chars.len() && self.chars[self.pos] == c
    }

    /// Consumes `c` where it stands; fails only at the end of the text.
    pub fn accept_char(&mut self, c: char) -> (r: Result<bool, ParseError>)
        requires
            old(self).wf(),
        ensures
            final(self).wf(),
            final(self).src() == old(self).src(),
            final(self).text == old(self).text,
            old(self).at() <= final(self).at(),
            old(self).at() >= old(self).src().len() ==> r == Err::<bool, ParseError>(
                eof_at(old(self).at()),
            ),
            old(self).at() < old(self).src().len() ==> {
                &&& r == Ok::<bool, ParseError>(old(self).src()[old(self).at()] == c)
                &&& old(self).moved_to(
                    final(self),
                    if old(self).src()[old(self).at()] == c {
                        old(self).at() + 1
                    } else {
                        old(self).at()
                    },
                )
            },
    {
        if self.is_eof() {
            return Err(self.error(ErrorKind::UnexpectedEof, true));
        }
        if self.chars[self.pos] == c {
            self.pos = self.pos + 1;
            Ok(true)
        } else {
            Ok(false)
        }
    }

    /// Consumes the run of `k` characters at the current position.
    pub fn skip(&mut self, k: CharClass)
        requires
            old(self).wf(),
        ensures
            old(self).moved_to(final(self), scan(old(self).src(), old(self).at(), k)),
    {
        proof {
            lemma_scan(self.src(), self.at(), k);
            reveal(scan);
        }
        while self.pos < self.chars.len() && k.contains(self.chars[self.pos])
            invariant
                self.wf(),
                self.src() == old(self).src(),
                self.text == old(self).text,
                scan(self.src(), self.at(), k) == scan(old(self).src(), old(self).at(), k),
            decreases self.src().len() - self.at(),
        {
            proof {
                reveal(scan);
            }
            self.pos = self.pos + 1;
        }
    }

    /// The text from `start` to the current position.
    pub fn taken(&self, start: usize) -> (r: &'doc str)
        requires
            self.wf(),
            start <= self.pos,
        ensures
            r@ == self.src().subrange(start as int, self.at()),
    {
        self.text.substring_char(start, self.pos)
    }

    /// Consumes and returns the run of `k` characters at the current position.
    pub fn take_while(&mut self, k: CharClass) -> (r: &'doc str)
        requires
            old(self).wf(),
        ensures
            old(self).moved_to(final(self), scan(old(self).src(), old(self).at(), k)),
            r@ == old(self).src().subrange(old(self).at(), final(self).at()),
    {
        let start = self.pos;
        self.skip(k);
        proof {
            lemma_scan(self.src(), start as int, k);
        }
        self.taken(start)
    }

    fn newline_here(&self) -> (r: usize)
        requires
            self.wf(),
        ensures
            r == newline_len(self.src(), self.at()),
    {
        let n = self.chars.len();
        if self.pos < n && self.chars[self.pos] == '\n' {
            1
        } else if self.pos < n && n - self.pos > 1 && self.chars[self.pos] == '\r' && self.chars[self.pos + 1]
            == '\n' {
            2
        } else {
            0
        }
    }

    /// Consumes the run of line breaks at the current position.
    pub fn skip_newlines(&mut self)
        requires
            old(self).wf(),
        ensures
            old(self).moved_to(final(self), skip_newlines(old(self).src(), old(self).at())),
    {
        proof {
            lemma_skip_newlines(self.src(), self.at());
            reveal(skip_newlines);
        }
        loop
            invariant
                self.wf(),
                self.src() == old(self).src(),
                self.text == old(self).text,
                old(self).at() <= self.at(),
                skip_newlines(self.src(), self.at()) == skip_newlines(
                    old(self).src(),
                    old(self).at(),
                ),
            decreases self.src().len() - self.at(),
        {
            proof {
                reveal(skip_newlines);
            }
            let n = self.newline_here();
            if n == 0 {
                return ;
            }
            self.pos = self.pos + n;
        }
    }

    /// Consumes one line break if one stands here; fails only at the end of the text.
    pub fn accept_newline(&mut self) -> (r: Result<bool, ParseError>)
        requires
            old(self).wf(),
        ensures
            final(self).wf(),
            final(self).src() == old(self).src(),
            final(self).text == old(self).text,
            old(self).at() <= final(self).at(),
            old(self).at() >= old(self).src().len() ==> r == Err::<bool, ParseError>(
                eof_at(old(self).at()),
            ),
            old(self).at() < old(self).src().len() ==> {
                &&& r == Ok::<bool, ParseError>(newline_len(old(self).src(), old(self).at()) > 0)
                &&& old(self).moved_to(
                    final(self),
                    old(self).at() + newline_len(old(self).src(), old(self).at()),
                )
            },
    {
        if self.is_eof() {
            return Err(self.error(ErrorKind::UnexpectedEof, true));
        }
        let n = self.newline_here();
        self.pos = self.pos + n;
        Ok(n > 0)
    }

    /// Consumes and returns the rest of the line, without its line break.
    pub fn until_newline(&mut self) -> (r: &'doc str)
        requires
            old(self).wf(),
        ensures
            old(self).moved_to(final(self), line_end(old(self).src(), old(self).at())),
            r@ == old(self).src().subrange(old(self).at(), final(self).at()),
    {
        let start = self.pos;
        proof {
            lemma_line_end(self.src(), self.at());
            reveal(line_end);
        }
        while self.pos < self.chars.len() && self.newline_here() == 0
            invariant
                self.wf(),
                self.src() == old(self).src(),
                self.text == old(self).text,
                start <= self.pos,
                line_end(self.src(), self.at()) == line_end(old(self).src(), old(self).at()),
            decreases self.src().len() - self.at(),
        {
            proof {
                reveal(line_end);
            }
            self.pos = self.pos + 1;
        }
        self.taken(start)
    }
}

} // verus!
