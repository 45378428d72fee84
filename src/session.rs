//! The decisions of a print session: a pass writes the document once per
//! copy and stops at the first failed write; after a failed pass the
//! operator is asked whether to try again, which starts a whole new pass.
//! The writes and the question are made by the caller, which reports each
//! outcome back.

use vstd::prelude::*;

verus! {

/// Where a session stands.
#[derive(Clone, Copy, Debug, PartialEq, Eq, Structural)]
pub enum SessionState {
    /// A pass is under way and has copies left to write.
    Attempting,
    /// The last pass wrote every copy; the session is over.
    Succeeded,
    /// The last pass stopped at a failed write; the operator is to be asked.
    Failed,
    /// The operator declined to try again; the session is over.
    Abandoned,
}

/// What the caller is to do next.
#[derive(Clone, Copy, Debug, PartialEq, Eq, Structural)]
pub enum Action {
    /// Write the document to the device once more; this is the given copy
    /// of the pass, counted from 1.
    Write(u32),
    /// Ask the operator whether to try again.
    AskRetry,
    /// Stop: the session is over.
    Finish,
}

/// A print session: how many copies a pass writes, how many of them the
/// current pass has written, and where it stands.
#[derive(Clone, Copy, Debug, PartialEq, Eq, Structural)]
pub struct PrintSession {
    pub copies: u32,
    pub written: u32,
    pub state: SessionState,
}

impl PrintSession {
    /// The pass counters agree with the state: a running or failed pass has
    /// copies left, a successful one has written them all.
    pub open spec fn wf(&self) -> bool {
        &&& self.written <= self.copies
        &&& self.state is Attempting ==> self.written < self.copies
        &&& self.state is Failed ==> self.written < self.copies
        &&& self.state is Succeeded ==> self.written == self.copies
    }

    /// The number of copies a pass writes for a requested count: none for a
    /// negative count.
    pub open spec fn copies_for(requested: i32) -> u32 {
        if requested < 0 {
            0
        } else {
            requested as u32
        }
    }

    /// The start of a session: a fresh pass, already over when it has no
    /// copies to write.
    pub open spec fn spec_new(requested: i32) -> PrintSession {
        let copies = Self::copies_for(requested);
        PrintSession {
            copies,
            written: 0,
            state: if copies == 0 {
                SessionState::Succeeded
            } else {
                SessionState::Attempting
            },
        }
    }

    pub open spec fn spec_next_action(self) -> Action {
        match self.state {
            SessionState::Attempting => if self.written < self.copies {
                Action::Write((self.written + 1) as u32)
            } else {
                Action::Finish
            },
            SessionState::Failed => Action::AskRetry,
            _ => Action::Finish,
        }
    }

    /// The session after the outcome of a write. A success counts the copy
    /// and ends the pass with success after the last one; a failure ends
    /// the pass at once. Outside a running pass nothing changes.
    pub open spec fn spec_after_write(self, ok: bool) -> PrintSession {
        if self.state is Attempting && self.written < self.copies {
            if ok {
                PrintSession {
                    written: (self.written + 1) as u32,
                    state: if self.written + 1 == self.copies {
                        SessionState::Succeeded
                    } else {
                        SessionState::Attempting
                    },
                    ..self
                }
            } else {
                PrintSession { state: SessionState::Failed, ..self }
            }
        } else {
            self
        }
    }

    /// The session after the operator's answer to "try again?": yes starts
    /// a new pass from the first copy, no ends the session. Outside a failed
    /// pass nothing changes.
    pub open spec fn spec_after_answer(self, again: bool) -> PrintSession {
        if self.state is Failed {
            if again {
                PrintSession {
                    written: 0,
                    state: if self.copies == 0 {
                        SessionState::Succeeded
                    } else {
                        SessionState::Attempting
                    },
                    ..self
                }
            } else {
                PrintSession { state: SessionState::Abandoned, ..self }
            }
        } else {
            self
        }
    }

    /// A session that writes `copies` copies per pass; a negative count
    /// writes none.
    pub fn new(copies: i32) -> (r: PrintSession)
        ensures
            r == Self::spec_new(copies),
            r.wf(),
    {
        let n: u32 = if copies < 0 {
            0
        } else {
            copies as u32
        };
        PrintSession {
            copies: n,
            written: 0,
            state: if n == 0 {
                SessionState::Succeeded
            } else {
                SessionState::Attempting
            },
        }
    }

    /// What the caller is to do next.
    pub fn next_action(&self) -> (r: Action)
        ensures
            r == self.spec_next_action(),
    {
        match self.state {
            SessionState::Attempting => if self.written < self.copies {
                Action::Write(self.written + 1)
            } else {
                Action::Finish
            },
            SessionState::Failed => Action::AskRetry,
            _ => Action::Finish,
        }
    }

    /// Takes in whether the last write succeeded.
    pub fn record_write(&mut self, ok: bool)
        ensures
            *final(self) == old(self).spec_after_write(ok),
            old(self).wf() ==> final(self).wf(),
    {
        if self.state == SessionState::Attempting && self.written < self.copies {
            if ok {
                self.written = self.written + 1;
                if self.written == self.copies {
                    self.state = SessionState::Succeeded;
                }
            } else {
                self.state = SessionState::Failed;
            }
        }
    }

    /// Takes in the operator's answer to "try again?".
    pub fn answer_retry(&mut self, again: bool)
        ensures
            *final(self) == old(self).spec_after_answer(again),
            old(self).wf() ==> final(self).wf(),
    {
        if self.state == SessionState::Failed {
            if again {
                self.written = 0;
                self.state = if self.copies == 0 {
                    SessionState::Succeeded
                } else {
                    SessionState::Attempting
                };
            } else {
                self.state = SessionState::Abandoned;
            }
        }
    }
}

/// An answer that asks to try again: `y`, `Y` or `yes`.
pub open spec fn is_retry_yes(s: Seq<char>) -> bool {
    s == seq!['y'] || s == seq!['Y'] || s == seq!['y', 'e', 's']
}

/// Whether the operator's answer asks to try again (`y`, `Y` or `yes`).
pub fn is_retry_answer(answer: &str) -> (r: bool)
    ensures
        r == is_retry_yes(answer@),
{
    let n = answer.unicode_len();
    if n == 1 {
        let c = answer.get_char(0);
        let r = c == 'y' || c == 'Y';
        assert(r ==> answer@ =~= seq![c]);
        r
    } else if n == 3 {
        let r = answer.get_char(0) == 'y' && answer.get_char(1) == 'e' && answer.get_char(2) == 's';
        assert(r ==> answer@ =~= seq!['y', 'e', 's']);
        r
    } else {
        false
    }
}

/// A failed write ends its pass: the next step asks the operator rather
/// than write another copy; a no then ends the session for good, with no
/// further write whatever is reported, and a yes starts over at the first
/// copy.
pub proof fn lemma_failure_ends_pass(s: PrintSession, ok: bool, again: bool)
    requires
        s.wf(),
        s.state is Attempting,
    ensures
        s.spec_after_write(false).spec_next_action() == Action::AskRetry,
        s.spec_after_write(false).spec_after_answer(false).spec_next_action() == Action::Finish,
        s.spec_after_write(false).spec_after_answer(false).spec_after_write(ok)
            == s.spec_after_write(false).spec_after_answer(false),
        s.spec_after_write(false).spec_after_answer(false).spec_after_answer(again)
            == s.spec_after_write(false).spec_after_answer(false),
        s.spec_after_write(false).spec_after_answer(true).spec_next_action() == Action::Write(1),
        s.spec_after_write(false).spec_after_answer(true).written == 0,
{
}

/// A session ends with success only once a pass has written every copy.
pub proof fn lemma_success_needs_full_pass(s: PrintSession, ok: bool)
    requires
        s.wf(),
        !(s.state is Succeeded),
        s.spec_after_write(ok).state is Succeeded,
    ensures
        ok,
        s.spec_after_write(ok).written == s.copies,
        s.written + 1 == s.copies,
{
}

} // verus!
