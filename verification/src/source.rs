//! The character source: supplies the characters of one regular expression in
//! order, skips whitespace, and takes at most one character back.

use vstd::prelude::*;

verus! {

/// True of the characters that separate tokens and carry no meaning.
pub open spec fn is_space_char(c: char) -> bool {
    c == ' ' || c == '\t' || c == '\n' || c == '\r'
}

/// The sequence with its leading run of whitespace characters removed.
pub open spec fn skip_spaces(s: Seq<char>) -> Seq<char>
    decreases s.len(),
{
    if s.len() > 0 && is_space_char(s[0]) {
        skip_spaces(s.skip(1))
    } else {
        s
    }
}

/// Whether a character counts as whitespace.
pub fn is_space(c: char) -> (r: bool)
    ensures
        r == is_space_char(c),
{
    c == ' ' || c == '\t' || c == '\n' || c == '\r'
}

/// A cursor over the characters of one expression, with room to put exactly
/// one character back so a scan can stop without swallowing what follows.
pub struct CharSource {
    chars: Vec<char>,
    pos: usize,
    pending: Option<char>,
}

impl View for CharSource {
    type V = Seq<char>;

    /// The characters still to be read, a pushed-back one first.
    closed spec fn view(&self) -> Seq<char> {
        let tail = if self.pos <= self.chars@.len() {
            self.chars@.skip(self.pos as int)
        } else {
            Seq::empty()
        };
        match self.pending {
            Some(c) => seq![c] + tail,
            None => tail,
        }
    }
}

impl CharSource {
    /// True when no character is pushed back, so that one more may be.
    pub closed spec fn no_pushback(self) -> bool {
        self.pending is None
    }

    pub fn new(chars: Vec<char>) -> (r: CharSource)
        ensures
            r@ == chars@,
            r.no_pushback(),
    {
        let r = CharSource { chars, pos: 0, pending: None };
        proof {
            assert(r@ =~= r.chars@);
        }
        r
    }

    /// Returns and consumes the next character, or nothing at end of input.
    pub fn next_char(&mut self) -> (r: Option<char>)
        ensures
            old(self)@.len() == 0 ==> r is None && final(self)@ == old(self)@,
            old(self)@.len() > 0 ==> r == Some(old(self)@[0]) && final(self)@ == old(self)@.skip(
                1,
            ),
            final(self).no_pushback(),
    {
        match self.pending {
            Some(c) => {
                self.pending = None;
                proof {
                    assert(old(self)@ =~= seq![c] + self@);
                    assert(old(self)@.skip(1) =~= self@);
                }
                Some(c)
            },
            None => {
                if self.pos < self.chars.len() {
                    let c = self.chars[self.pos];
                    self.pos = self.pos + 1;
                    proof {
                        assert(old(self)@ == old(self).chars@.skip(old(self).pos as int));
                        assert(old(self)@[0] == c);
                        assert(self@ =~= old(self)@.skip(1));
                    }
                    Some(c)
                } else {
                    None
                }
            },
        }
    }

    /// Pushes exactly one character back to be returned again by the next
    /// read; at most one character may be pending at a time.
    pub fn return_char(&mut self, c: char)
        requires
            old(self).no_pushback(),
        ensures
            final(self)@ == seq![c] + old(self)@,
    {
        self.pending = Some(c);
    }

    /// Advances past any run of whitespace characters.
    pub fn skip_whitespace(&mut self)
        ensures
            final(self)@ == skip_spaces(old(self)@),
    {
        loop
            invariant
                skip_spaces(self@) == skip_spaces(old(self)@),
            ensures
                self@ == skip_spaces(old(self)@),
            decreases self@.len(),
        {
            let before = Ghost(self@);
            match self.next_char() {
                Some(c) => {
                    if is_space(c) {
                        proof {
                            assert(skip_spaces(before@) == skip_spaces(self@));
                        }
                    } else {
                        self.return_char(c);
                        proof {
                            assert(self@ =~= before@);
                            assert(skip_spaces(self@) == self@);
                        }
                        break ;
                    }
                },
                None => {
                    proof {
                        assert(skip_spaces(self@) == self@);
                    }
                    break ;
                },
            }
        }
    }
}

} // verus!
