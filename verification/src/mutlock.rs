use vstd::prelude::*;

verus! {

/// Appends `c` to `s`.
///
/// Calls `String::push`, which appends one character to the end of the
/// string; the contract states that and nothing more.
#[verifier::external_body]
pub(crate) fn push_char(s: &mut String, c: char)
    ensures
        final(s)@ == old(s)@.push(c),
{
    s.push(c)
}

/// A test-and-set lock over a text: a visitor that takes the flag appends
/// one `'!'` and then clears the flag.
pub struct LockedText {
    locked: bool,
    data: String,
}

impl LockedText {
    /// Whether the flag is set.
    pub closed spec fn is_locked(&self) -> bool {
        self.locked
    }

    /// The text.
    pub closed spec fn text(&self) -> Seq<char> {
        self.data@
    }

    /// A free, empty text.
    pub fn new() -> (t: LockedText)
        ensures
            !t.is_locked(),
            t.text() == Seq::<char>::empty(),
    {
        LockedText { locked: false, data: String::new() }
    }

    /// The text.
    pub fn data(&self) -> (s: &String)
        ensures
            s@ == self.text(),
    {
        &self.data
    }

    /// Sets the flag as another thread holding the lock would.
    pub fn hold(&mut self)
        ensures
            final(self).is_locked(),
            final(self).text() == old(self).text(),
    {
        self.locked = true;
    }

    /// One visit: if the flag is free it is taken, `'!'` is appended and the
    /// flag is cleared again, and the result is `true`; if the flag is held
    /// nothing changes and the result is `false`.
    pub fn visit(&mut self) -> (executed: bool)
        ensures
            executed == !old(self).is_locked(),
            executed ==> !final(self).is_locked() && final(self).text() == old(self).text().push(
                '!',
            ),
            !executed ==> final(self).is_locked() == old(self).is_locked() && final(self).text()
                == old(self).text(),
    {
        if !self.locked {
            self.locked = true;
            push_char(&mut self.data, '!');
            self.locked = false;
            true
        } else {
            false
        }
    }
}

/// The text after `n` visits that each found the flag free.
pub open spec fn marks(n: nat) -> Seq<char> {
    Seq::new(n, |_i: int| '!')
}

/// Visits one after another on a free text each add exactly one `'!'`:
/// after `n` of them the text is `n` marks.
pub proof fn lemma_visits_append_marks(n: nat)
    ensures
        marks(n).len() == n,
        marks(n).push('!') == marks(n + 1),
{
    assert(marks(n).push('!') =~= marks(n + 1));
}

} // verus!
