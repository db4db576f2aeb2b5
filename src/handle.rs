//! The handle-based identity check, as a session that decides each native
//! operation in turn while its driver carries them out.
//!
//! Where a file's identity is read through an open handle, the fields read are
//! only guaranteed to be stable while that handle stays open. So both handles
//! are opened first, both are queried while both are held, and every handle
//! that was opened is closed before the answer is given, on the path that
//! failed as on the one that did not.
use vstd::prelude::*;

use crate::key::FileKey;

verus! {

/// Which of the two paths an operation is about.
#[derive(Clone, Copy, Debug, PartialEq, Eq, Structural)]
pub enum Slot {
    First,
    Second,
}

/// A native operation that the session asks its driver to carry out.
#[derive(Clone, Copy, Debug, PartialEq, Eq, Structural)]
pub enum Request {
    /// Open a read-attribute handle to the path.
    Open(Slot),
    /// Read the identity key through the path's open handle.
    Query(Slot),
    /// Release the path's handle.
    Close(Slot),
}

/// What came of the last request.
pub enum Outcome<E> {
    /// An `Open` or a `Close` succeeded.
    Done,
    /// A `Query` gave this key.
    Key(FileKey),
    /// The operation failed with this error.
    Failed(E),
}

/// What the session does next: ask for one more operation, or give its answer.
pub enum Step<E> {
    Perform(HandleSession<E>, Request),
    Finish(Result<bool, E>),
}

/// What a session has recorded so far: the handles it holds, the keys it has
/// read, the failure that ended its queries, and the request it waits on.
pub struct SessionRecord<E> {
    pub pending: Request,
    pub first_open: bool,
    pub second_open: bool,
    pub first: Option<FileKey>,
    pub second: Option<FileKey>,
    pub failure: Option<E>,
}

/// The request that follows from what has been recorded, or `None` when the
/// answer can be given.
pub open spec fn plan_spec(
    first_open: bool,
    second_open: bool,
    have_first: bool,
    have_second: bool,
    failed: bool,
) -> Option<Request> {
    if failed || have_second {
        if second_open {
            Some(Request::Close(Slot::Second))
        } else if first_open {
            Some(Request::Close(Slot::First))
        } else {
            None
        }
    } else if !first_open {
        Some(Request::Open(Slot::First))
    } else if !second_open {
        Some(Request::Open(Slot::Second))
    } else if !have_first {
        Some(Request::Query(Slot::First))
    } else {
        Some(Request::Query(Slot::Second))
    }
}

impl<E> SessionRecord<E> {
    /// A session that has done nothing yet.
    pub open spec fn initial() -> SessionRecord<E> {
        SessionRecord {
            pending: Request::Open(Slot::First),
            first_open: false,
            second_open: false,
            first: None,
            second: None,
            failure: None,
        }
    }

    pub open spec fn is_open(self, s: Slot) -> bool {
        match s {
            Slot::First => self.first_open,
            Slot::Second => self.second_open,
        }
    }

    pub open spec fn plan(self) -> Option<Request> {
        plan_spec(
            self.first_open,
            self.second_open,
            self.first is Some,
            self.second is Some,
            self.failure is Some,
        )
    }

    /// The invariant of every live session.
    pub open spec fn wf(self) -> bool {
        &&& self.second_open ==> self.first_open
        &&& self.second is Some ==> self.first is Some
        &&& (self.failure is None && self.second is None && self.first is Some) ==> (
        self.first_open && self.second_open)
        &&& self.plan() == Some(self.pending)
    }

    /// Whether `o` is an answer to the pending request. Any other outcome is
    /// ignored, and the same request is made again.
    pub open spec fn answered_by(self, o: Outcome<E>) -> bool {
        match o {
            Outcome::Done => !(self.pending is Query),
            Outcome::Key(_) => self.pending is Query,
            Outcome::Failed(_) => true,
        }
    }

    /// The record once the outcome of the pending request is taken in. A
    /// failure to open or to query ends the queries and is kept; a handle
    /// counts as released once its `Close` was carried out, whether or not the
    /// release reported an error.
    pub open spec fn record(self, o: Outcome<E>) -> SessionRecord<E> {
        match o {
            Outcome::Done => match self.pending {
                Request::Open(Slot::First) => SessionRecord { first_open: true, ..self },
                Request::Open(Slot::Second) => SessionRecord { second_open: true, ..self },
                Request::Close(Slot::First) => SessionRecord { first_open: false, ..self },
                Request::Close(Slot::Second) => SessionRecord { second_open: false, ..self },
                Request::Query(_) => self,
            },
            Outcome::Key(k) => match self.pending {
                Request::Query(Slot::First) => SessionRecord { first: Some(k), ..self },
                Request::Query(Slot::Second) => SessionRecord { second: Some(k), ..self },
                _ => self,
            },
            Outcome::Failed(e) => match self.pending {
                Request::Close(Slot::First) => SessionRecord { first_open: false, ..self },
                Request::Close(Slot::Second) => SessionRecord { second_open: false, ..self },
                _ => SessionRecord { failure: Some(e), ..self },
            },
        }
    }

    /// The answer of a session that has nothing left to do.
    pub open spec fn verdict(self) -> Result<bool, E> {
        match self.failure {
            Some(e) => Err(e),
            None => Ok(self.first == self.second),
        }
    }

    /// How many answered requests a session has left at most before it gives
    /// its answer.
    pub open spec fn remaining(self) -> nat {
        let held: nat = (if self.first_open { 1nat } else { 0nat }) + (if self.second_open {
            1nat
        } else {
            0nat
        });
        if self.failure is Some || self.second is Some {
            held
        } else {
            let to_open: nat = (if self.first_open { 0nat } else { 1nat }) + (if self.second_open {
                0nat
            } else {
                1nat
            });
            let to_read: nat = if self.first is Some { 1nat } else { 2nat };
            to_open + to_read + 2
        }
    }
}

/// The session of one handle-based identity check of two paths.
pub struct HandleSession<E> {
    pending: Request,
    first_open: bool,
    second_open: bool,
    first: Option<FileKey>,
    second: Option<FileKey>,
    failure: Option<E>,
}

impl<E> View for HandleSession<E> {
    type V = SessionRecord<E>;

    closed spec fn view(&self) -> SessionRecord<E> {
        SessionRecord {
            pending: self.pending,
            first_open: self.first_open,
            second_open: self.second_open,
            first: self.first,
            second: self.second,
            failure: self.failure,
        }
    }
}

fn plan(first_open: bool, second_open: bool, have_first: bool, have_second: bool, failed: bool) -> (r:
    Option<Request>)
    ensures
        r == plan_spec(first_open, second_open, have_first, have_second, failed),
{
    if failed || have_second {
        if second_open {
            Some(Request::Close(Slot::Second))
        } else if first_open {
            Some(Request::Close(Slot::First))
        } else {
            None
        }
    } else if !first_open {
        Some(Request::Open(Slot::First))
    } else if !second_open {
        Some(Request::Open(Slot::Second))
    } else if !have_first {
        Some(Request::Query(Slot::First))
    } else {
        Some(Request::Query(Slot::Second))
    }
}

impl<E> HandleSession<E> {
    /// Starts a check; its first request is to open the first path.
    pub fn start() -> (res: (HandleSession<E>, Request))
        ensures
            res.0@ == SessionRecord::<E>::initial(),
            res.0@.wf(),
            res.1 == Request::Open(Slot::First),
    {
        let s = HandleSession {
            pending: Request::Open(Slot::First),
            first_open: false,
            second_open: false,
            first: None,
            second: None,
            failure: None,
        };
        (s, Request::Open(Slot::First))
    }

    /// Takes in the outcome of the pending request and decides what follows.
    ///
    /// A key is read only while both handles are held, a handle is opened only
    /// when it is not held and closed only when it is, and the answer comes only
    /// once no handle is held. The answer is the first failure to open or to
    /// query, if any, else whether the two keys are equal. Each answered
    /// request brings the session closer to its answer.
    pub fn resume(self, outcome: Outcome<E>) -> (step: Step<E>)
        requires
            self@.wf(),
        ensures
            (step matches Step::Perform(next, req) ==> {
                &&& next@ == SessionRecord { pending: req, ..self@.record(outcome) }
                &&& next@.wf()
                &&& (req matches Request::Query(_) ==> next@.first_open && next@.second_open)
                &&& (req matches Request::Open(s) ==> !next@.is_open(s))
                &&& (req matches Request::Close(s) ==> next@.is_open(s))
                &&& (self@.answered_by(outcome) ==> next@.remaining() < self@.remaining())
                &&& (!self@.answered_by(outcome) ==> next@ == self@)
            }),
            (step matches Step::Finish(r) ==> {
                let done = self@.record(outcome);
                &&& done.plan() is None
                &&& !done.first_open && !done.second_open
                &&& (done.failure is None ==> done.first is Some && done.second is Some)
                &&& r == done.verdict()
            }),
    {
        let HandleSession { pending, mut first_open, mut second_open, mut first, mut second, mut failure } =
            self;
        match outcome {
            Outcome::Done => match pending {
                Request::Open(Slot::First) => first_open = true,
                Request::Open(Slot::Second) => second_open = true,
                Request::Close(Slot::First) => first_open = false,
                Request::Close(Slot::Second) => second_open = false,
                Request::Query(_) => {},
            },
            Outcome::Key(k) => match pending {
                Request::Query(Slot::First) => first = Some(k),
                Request::Query(Slot::Second) => second = Some(k),
                _ => {},
            },
            Outcome::Failed(e) => match pending {
                Request::Close(Slot::First) => first_open = false,
                Request::Close(Slot::Second) => second_open = false,
                _ => failure = Some(e),
            },
        }
        match plan(first_open, second_open, first.is_some(), second.is_some(), failure.is_some()) {
            Some(req) => {
                let next = HandleSession { pending: req, first_open, second_open, first, second, failure };
                Step::Perform(next, req)
            },
            None => match failure {
                Some(e) => Step::Finish(Err(e)),
                None => Step::Finish(Ok(first == second)),
            },
        }
    }
}

} // verus!
