//! The cyclic source of the characters that the animation draws.
use vstd::prelude::*;
use vstd::arithmetic::div_mod::{lemma_add_mod_noop_right, lemma_mod_self_0, lemma_small_mod};
use vstd::string::StrSliceExecFns;

verus! {

/// Mathematical model of a position in a cyclic sequence of characters.
pub struct CharCursor {
    pub position: nat,
    pub characters: Seq<char>,
}

impl CharCursor {
    /// The cursor at the first character of `text`.
    pub open spec fn fresh(text: Seq<char>) -> Self {
        CharCursor { position: 0, characters: text }
    }

    /// The position names a character whenever there is one.
    pub open spec fn wf(self) -> bool {
        self.characters.len() > 0 ==> self.position < self.characters.len()
    }

    /// The cursor can emit: it is well formed over a non-empty sequence.
    pub open spec fn ready(self) -> bool {
        self.characters.len() > 0 && self.position < self.characters.len()
    }

    /// The character under the cursor.
    pub open spec fn current(self) -> char {
        self.characters[self.position as int]
    }

    /// The cursor moved to the following character, wrapping at the end.
    pub open spec fn advance(self) -> Self {
        CharCursor {
            position: (self.position + 1) % self.characters.len(),
            characters: self.characters,
        }
    }

    /// The cursor after `n` characters were emitted.
    pub open spec fn after(self, n: nat) -> Self
        decreases n,
    {
        if n == 0 {
            self
        } else {
            self.advance().after((n - 1) as nat)
        }
    }

    /// The first `n` characters that the cursor emits.
    pub open spec fn emitted(self, n: nat) -> Seq<char> {
        Seq::new(n, |i: int| self.after(i as nat).current())
    }

    /// The cursor over another, non-empty, text: the position is kept modulo
    /// the new length.
    pub open spec fn replaced(self, text: Seq<char>) -> Self {
        CharCursor { position: self.position % text.len(), characters: text }
    }
}

/// Advancing leaves the cursor able to emit: the position moves to the
/// following character, or from the last one back to the first.
pub proof fn lemma_advance(c: CharCursor)
    requires
        c.ready(),
    ensures
        c.advance().ready(),
        c.advance().characters == c.characters,
        c.position + 1 < c.characters.len() ==> c.advance().position == c.position + 1,
        c.position + 1 == c.characters.len() ==> c.advance().position == 0,
{
    if c.position + 1 < c.characters.len() {
        lemma_small_mod(c.position + 1, c.characters.len());
    } else {
        lemma_mod_self_0(c.characters.len() as int);
    }
}

/// After `n` emissions the characters are unchanged and the position has
/// moved `n` places around the cycle.
pub proof fn lemma_emissions(c: CharCursor, n: nat)
    requires
        c.ready(),
    ensures
        c.after(n).ready(),
        c.after(n).characters == c.characters,
        c.after(n).position == (c.position + n) % c.characters.len(),
    decreases n,
{
    if n == 0 {
        lemma_small_mod(c.position, c.characters.len());
    } else {
        let m = (n - 1) as nat;
        lemma_advance(c);
        lemma_emissions(c.advance(), m);
        lemma_add_mod_noop_right(m as int, (c.position + 1) as int, c.characters.len() as int);
    }
}

/// A fresh cursor over a non-empty text of length `L` emits exactly that
/// text in its first `L` emissions and is then back where it began; from any
/// ready cursor the emissions repeat with period `L`.
pub proof fn lemma_cycle(text: Seq<char>, c: CharCursor, n: nat)
    requires
        text.len() > 0,
        c.ready(),
    ensures
        CharCursor::fresh(text).emitted(text.len()) == text,
        CharCursor::fresh(text).after(text.len()) == CharCursor::fresh(text),
        c.after(n + c.characters.len()) == c.after(n),
        c.after(n + c.characters.len()).current() == c.after(n).current(),
{
    let f = CharCursor::fresh(text);
    let len = text.len();
    assert forall|i: int| 0 <= i < len implies #[trigger] f.emitted(len)[i] == text[i] by {
        lemma_emissions(f, i as nat);
        lemma_small_mod(i as nat, len);
    }
    assert(f.emitted(len) =~= text);
    lemma_emissions(f, len);
    lemma_mod_self_0(len as int);

    let p = c.characters.len();
    lemma_emissions(c, n);
    lemma_emissions(c, n + p);
    lemma_add_mod_noop_right((c.position + n) as int, p as int, p as int);
    lemma_mod_self_0(p as int);
    lemma_small_mod(c.after(n).position, p);
}

/// Replacing the text keeps the phase: the new position is the old one
/// modulo the new length, and the cursor can emit again.
pub proof fn lemma_replace_keeps_phase(c: CharCursor, text: Seq<char>)
    requires
        text.len() > 0,
    ensures
        c.replaced(text).ready(),
        c.replaced(text).characters == text,
        c.replaced(text).position == c.position % text.len(),
{
}

/// The characters of `text`, in order.
pub fn chars_of(text: &str) -> (chars: Vec<char>)
    ensures
        chars@ == text@,
{
    let len: usize = text.unicode_len();
    let mut chars: Vec<char> = Vec::new();
    let mut i: usize = 0;
    while i < len
        invariant
            len == text@.len(),
            i <= len,
            chars@ == text@.subrange(0, i as int),
        decreases len - i,
    {
        chars.push(text.get_char(i));
        assert(chars@ =~= text@.subrange(0, i + 1));
        i += 1;
    }
    assert(chars@ =~= text@);
    chars
}

/// Why a generator refused a text.
#[derive(Clone, Copy, Debug, PartialEq, Eq, Structural)]
pub enum GlyphError {
    /// The text has no characters.
    InvalidArgument,
}

/// Cycles through the characters of the current message, forever.
#[derive(Debug)]
pub struct CharGen {
    position: usize,
    chars: Vec<char>,
}

impl View for CharGen {
    type V = CharCursor;

    closed spec fn view(&self) -> CharCursor {
        CharCursor { position: self.position as nat, characters: self.chars@ }
    }
}

impl CharGen {
    /// A generator at the first character of `chars`.
    pub fn new(chars: &str) -> (generator: Self)
        ensures
            generator@ == CharCursor::fresh(chars@),
            generator@.wf(),
    {
        CharGen { position: 0, chars: chars_of(chars) }
    }

    /// Replaces the characters in place, keeping the position modulo the
    /// new length.
    pub fn update(&mut self, newmsg: &str)
        requires
            newmsg@.len() > 0,
        ensures
            final(self)@ == old(self)@.replaced(newmsg@),
            final(self)@.ready(),
    {
        self.chars = chars_of(newmsg);
        self.position = self.position % self.chars.len();
    }

    /// As `update`, for a caller that cannot rule out an empty text: such a
    /// text is refused and the generator left as it was.
    pub fn try_update(&mut self, newmsg: &str) -> (outcome: Result<(), GlyphError>)
        ensures
            newmsg@.len() == 0 ==> outcome == Err::<(), GlyphError>(GlyphError::InvalidArgument)
                && final(self)@ == old(self)@,
            newmsg@.len() > 0 ==> outcome == Ok::<(), GlyphError>(()) && final(self)@ == old(
                self,
            )@.replaced(newmsg@) && final(self)@.ready(),
    {
        let chars = chars_of(newmsg);
        if chars.len() == 0 {
            Err(GlyphError::InvalidArgument)
        } else {
            self.position = self.position % chars.len();
            self.chars = chars;
            Ok(())
        }
    }

    /// Emits the character under the cursor, then moves to the following
    /// one, wrapping at the end.
    pub fn next(&mut self) -> (glyph: Option<char>)
        requires
            old(self)@.ready(),
        ensures
            glyph == Some(old(self)@.current()),
            final(self)@ == old(self)@.advance(),
            final(self)@.ready(),
    {
        let glyph = self.chars[self.position];
        let size: usize = self.chars.len();
        proof {
            lemma_advance(self@);
        }
        self.position = (self.position + 1) % size;
        Some(glyph)
    }

    /// Index of the character that the following call of `next` will emit.
    pub fn position(&self) -> (p: usize)
        ensures
            p == self@.position,
    {
        self.position
    }

    /// Number of characters in the cycle.
    pub fn len(&self) -> (n: usize)
        ensures
            n == self@.characters.len(),
    {
        self.chars.len()
    }
}

} // verus!
