use crate::mutlock::push_char;
use vstd::prelude::*;

verus! {

/// Two flags and a text. Each thread sets its own flag and then, if the
/// other thread's flag is still clear, appends a `'!'`.
pub struct FlagPair {
    a: bool,
    b: bool,
    marks: String,
}

/// One of the four accesses the two threads make, each an indivisible step
/// under sequentially consistent ordering.
pub enum FlagStep {
    /// The first thread stores `a`.
    SetA,
    /// The first thread loads `b` and marks if it is clear.
    CheckB,
    /// The second thread stores `b`.
    SetB,
    /// The second thread loads `a` and marks if it is clear.
    CheckA,
}

/// The flags and the number of marks, as `(a, b, marks)`.
pub type FlagModel = (bool, bool, nat);

/// The effect of one step on the flags and the number of marks.
pub open spec fn flag_step(m: FlagModel, step: FlagStep) -> FlagModel {
    match step {
        FlagStep::SetA => (true, m.1, m.2),
        FlagStep::CheckB => if m.1 {
            m
        } else {
            (m.0, m.1, m.2 + 1)
        },
        FlagStep::SetB => (m.0, true, m.2),
        FlagStep::CheckA => if m.0 {
            m
        } else {
            (m.0, m.1, m.2 + 1)
        },
    }
}

/// Four steps, one after another.
pub open spec fn run_steps(
    m: FlagModel,
    s1: FlagStep,
    s2: FlagStep,
    s3: FlagStep,
    s4: FlagStep,
) -> FlagModel {
    flag_step(flag_step(flag_step(flag_step(m, s1), s2), s3), s4)
}

/// The orders of the four steps in which each thread stores before it
/// loads: every interleaving of the two threads.
pub open spec fn is_interleaving(s1: FlagStep, s2: FlagStep, s3: FlagStep, s4: FlagStep) -> bool {
    ||| (s1, s2, s3, s4) == (FlagStep::SetA, FlagStep::CheckB, FlagStep::SetB, FlagStep::CheckA)
    ||| (s1, s2, s3, s4) == (FlagStep::SetA, FlagStep::SetB, FlagStep::CheckB, FlagStep::CheckA)
    ||| (s1, s2, s3, s4) == (FlagStep::SetA, FlagStep::SetB, FlagStep::CheckA, FlagStep::CheckB)
    ||| (s1, s2, s3, s4) == (FlagStep::SetB, FlagStep::SetA, FlagStep::CheckB, FlagStep::CheckA)
    ||| (s1, s2, s3, s4) == (FlagStep::SetB, FlagStep::SetA, FlagStep::CheckA, FlagStep::CheckB)
    ||| (s1, s2, s3, s4) == (FlagStep::SetB, FlagStep::CheckA, FlagStep::SetA, FlagStep::CheckB)
}

impl FlagPair {
    /// The first thread's flag.
    pub closed spec fn flag_a(&self) -> bool {
        self.a
    }

    /// The second thread's flag.
    pub closed spec fn flag_b(&self) -> bool {
        self.b
    }

    /// The text.
    pub closed spec fn text(&self) -> Seq<char> {
        self.marks@
    }

    /// The flags and how many marks the text holds.
    pub open spec fn model(&self) -> FlagModel {
        (self.flag_a(), self.flag_b(), self.text().len())
    }

    /// Both flags clear, empty text.
    pub fn new() -> (p: FlagPair)
        ensures
            !p.flag_a(),
            !p.flag_b(),
            p.text() == Seq::<char>::empty(),
            p.model() == (false, false, 0nat),
    {
        FlagPair { a: false, b: false, marks: String::new() }
    }

    /// The first thread's store of `a`.
    pub fn set_a(&mut self)
        ensures
            final(self).flag_a(),
            final(self).flag_b() == old(self).flag_b(),
            final(self).text() == old(self).text(),
            final(self).model() == flag_step(old(self).model(), FlagStep::SetA),
    {
        self.a = true;
    }

    /// The second thread's store of `b`.
    pub fn set_b(&mut self)
        ensures
            final(self).flag_b(),
            final(self).flag_a() == old(self).flag_a(),
            final(self).text() == old(self).text(),
            final(self).model() == flag_step(old(self).model(), FlagStep::SetB),
    {
        self.b = true;
    }

    /// The first thread's load of `b`: marks if `b` is clear.
    pub fn check_b(&mut self) -> (marked: bool)
        ensures
            marked == !old(self).flag_b(),
            final(self).flag_a() == old(self).flag_a(),
            final(self).flag_b() == old(self).flag_b(),
            final(self).text() == if marked {
                old(self).text().push('!')
            } else {
                old(self).text()
            },
            final(self).model() == flag_step(old(self).model(), FlagStep::CheckB),
    {
        if !self.b {
            push_char(&mut self.marks, '!');
            true
        } else {
            false
        }
    }

    /// The second thread's load of `a`: marks if `a` is clear.
    pub fn check_a(&mut self) -> (marked: bool)
        ensures
            marked == !old(self).flag_a(),
            final(self).flag_a() == old(self).flag_a(),
            final(self).flag_b() == old(self).flag_b(),
            final(self).text() == if marked {
                old(self).text().push('!')
            } else {
                old(self).text()
            },
            final(self).model() == flag_step(old(self).model(), FlagStep::CheckA),
    {
        if !self.a {
            push_char(&mut self.marks, '!');
            true
        } else {
            false
        }
    }

    /// The first thread run to its end: sets `a`, then marks if `b` is clear.
    pub fn first_thread(&mut self) -> (marked: bool)
        ensures
            marked == !old(self).flag_b(),
            final(self).flag_a(),
            final(self).flag_b() == old(self).flag_b(),
            final(self).text() == if marked {
                old(self).text().push('!')
            } else {
                old(self).text()
            },
    {
        self.set_a();
        self.check_b()
    }

    /// The second thread run to its end: sets `b`, then marks if `a` is
    /// clear.
    pub fn second_thread(&mut self) -> (marked: bool)
        ensures
            marked == !old(self).flag_a(),
            final(self).flag_b(),
            final(self).flag_a() == old(self).flag_a(),
            final(self).text() == if marked {
                old(self).text().push('!')
            } else {
                old(self).text()
            },
    {
        self.set_b();
        self.check_a()
    }

    /// The text.
    pub fn marks(&self) -> (s: &String)
        ensures
            s@ == self.text(),
    {
        &self.marks
    }

    /// Gives up the text.
    pub fn into_text(self) -> (s: String)
        ensures
            s@ == self.text(),
    {
        self.marks
    }
}

/// Runs the first thread to completion and then the second, and returns the
/// text: the first thread finds `b` clear and marks, the second finds `a`
/// set and does not, so the text is one `'!'`.
pub fn seq() -> (text: String)
    ensures
        text@ == seq!['!'],
{
    let mut pair = FlagPair::new();
    pair.first_thread();
    pair.second_thread();
    pair.into_text()
}

/// Under sequentially consistent ordering the two threads' steps happen in
/// one order in which each thread stores before it loads. Whatever that
/// order, running the steps of `FlagPair` from both flags clear appends at
/// most one mark: the two threads never both find the other's flag clear.
pub proof fn lemma_at_most_one_mark(s1: FlagStep, s2: FlagStep, s3: FlagStep, s4: FlagStep)
    requires
        is_interleaving(s1, s2, s3, s4),
    ensures
        run_steps((false, false, 0nat), s1, s2, s3, s4).2 <= 1,
{
}

} // verus!
