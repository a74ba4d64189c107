//! The scrolling ground: a fixed repeating character pattern and a
//! monotonically increasing scroll offset.  The offset never wraps in
//! storage (so it doubles as an elapsed-tick counter); it is reduced
//! modulo the pattern length only when the visible window is read.
use vstd::prelude::*;
use vstd::arithmetic::div_mod::{
    lemma_add_mod_noop, lemma_mod_division_less_than_divisor, lemma_mod_self_0, lemma_small_mod,
};

verus! {

const DEFAULT_OFFSET_AMOUNT: usize = 1;

pub struct Ground {
    pub pattern_chars: Vec<char>,
    pub offset: usize,
}

/// The window of `width` pattern characters that is visible when the
/// scroll offset is `offset`: position `i` of the window shows the
/// pattern character at `(offset + i) mod pattern_len`, cyclically.
/// An empty pattern or a zero width gives an empty window.
pub open spec fn visible_spec(pattern: Seq<char>, offset: nat, width: nat) -> Seq<char> {
    if pattern.len() == 0 || width == 0 {
        Seq::empty()
    } else {
        Seq::new(width, |i: int| pattern[(offset + i) % (pattern.len() as int)])
    }
}

/// Incrementing a number steps its remainder modulo `m` by one,
/// wrapping back to zero when the remainder reaches `m`.
proof fn lemma_mod_step(a: int, m: int)
    requires
        m > 0,
    ensures
        (a + 1) % m == (if a % m + 1 == m {
            0int
        } else {
            a % m + 1
        }),
{
    lemma_add_mod_noop(a, 1, m);
    lemma_mod_division_less_than_divisor(a, m);
    if m == 1 {
        lemma_mod_self_0(m);
    } else {
        lemma_small_mod(1nat, m as nat);
        if a % m + 1 == m {
            lemma_mod_self_0(m);
        } else {
            lemma_small_mod((a % m + 1) as nat, m as nat);
        }
    }
}

/// Law: the visible window is periodic in the pattern length.
/// Advancing the offset by exactly one pattern length leaves the
/// window unchanged.
pub proof fn lemma_visible_slice_periodic(pattern: Seq<char>, offset: nat, width: nat)
    ensures
        visible_spec(pattern, offset + pattern.len(), width) == visible_spec(
            pattern,
            offset,
            width,
        ),
{
    if pattern.len() == 0 || width == 0 {
    } else {
        let n = pattern.len() as int;
        assert forall|i: int| 0 <= i < width implies #[trigger] ((offset + pattern.len() + i) % n)
            == (offset + i) % n by {
            vstd::arithmetic::div_mod::lemma_mod_add_multiples_vanish(offset + i, n);
        }
        assert(visible_spec(pattern, offset + pattern.len(), width) =~= visible_spec(
            pattern,
            offset,
            width,
        ));
    }
}

/// Relies on String::push: appends exactly the given character to the
/// end of the string.
#[verifier::external_body]
fn push_char(s: &mut String, c: char)
    ensures
        final(s)@ == old(s)@.push(c),
{
    s.push(c);
}

impl Ground {
    pub fn new(pattern: String) -> (g: Ground)
        ensures
            g.pattern_chars@ == pattern@,
            g.offset == 0,
    {
        let mut pattern_chars: Vec<char> = Vec::new();
        for c in it: pattern.as_str().chars()
            invariant
                it.seq() == pattern@,
                pattern_chars@ == it.seq().take(it.index() as int),
        {
            pattern_chars.push(c);
        }
        proof {
            assert(pattern_chars@ =~= pattern@);
        }
        Ground { pattern_chars, offset: 0 }
    }

    /// The raw scroll counter: the number of units scrolled so far,
    /// also used by the game loop as its spawn-cadence clock.
    pub fn offset(&self) -> (off: usize)
        ensures
            off == self.offset,
    {
        self.offset
    }

    /// The `width` pattern characters currently visible, starting at
    /// `offset mod pattern_len` and wrapping cyclically; empty if the
    /// pattern is empty or the width is zero.
    pub fn get_visible_slice(&self, width: usize) -> (s: String)
        ensures
            s@ == visible_spec(self.pattern_chars@, self.offset as nat, width as nat),
    {
        let pattern_len = self.pattern_chars.len();
        if pattern_len == 0 || width == 0 {
            return String::new();
        }

        let mut visible = String::new();
        let mut idx: usize = self.offset % pattern_len;

        proof {
            lemma_mod_division_less_than_divisor(self.offset as int, pattern_len as int);
        }
        for i in 0..width
            invariant
                pattern_len == self.pattern_chars@.len(),
                pattern_len > 0,
                idx == (self.offset + i) % (pattern_len as int),
                visible@.len() == i,
                forall|j: int|
                    0 <= j < i ==> visible@[j] == self.pattern_chars@[(self.offset + j) % (
                    pattern_len as int)],
        {
            proof {
                lemma_mod_division_less_than_divisor(self.offset + i, pattern_len as int);
            }
            push_char(&mut visible, self.pattern_chars[idx]);
            proof {
                lemma_mod_step(self.offset + i, pattern_len as int);
            }
            idx = idx + 1;
            if idx == pattern_len {
                idx = 0;
            }
        }
        proof {
            assert(visible@ =~= visible_spec(
                self.pattern_chars@,
                self.offset as nat,
                width as nat,
            ));
        }
        visible
    }

    /// Advances the scroll offset by `amount` units (one unit if no
    /// amount is given).  The offset grows without wrapping.
    pub fn scroll(&mut self, amount: Option<usize>)
        requires
            old(self).offset + (match amount {
                Option::Some(a) => a as int,
                Option::None => 1int,
            }) <= usize::MAX,
        ensures
            final(self).pattern_chars == old(self).pattern_chars,
            final(self).offset == old(self).offset + (match amount {
                Option::Some(a) => a as int,
                Option::None => 1int,
            }),
    {
        self.offset = self.offset + (match amount {
            Option::Some(a) => a,
            Option::None => DEFAULT_OFFSET_AMOUNT,
        });
    }
}

} // verus!
