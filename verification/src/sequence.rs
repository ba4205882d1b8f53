//! A list of requests on its way to the server, one at a time.

use vstd::prelude::*;

use crate::request::Request;

verus! {

/// What a request that could not be sent means for those behind it.
#[derive(Clone, Copy, Debug, PartialEq, Eq, Structural)]
pub enum OnFailure {
    /// The failure is passed over; the next request is sent all the same.
    Ignore,
    /// Nothing more is sent, and the whole sequence has failed.
    Stop,
}

/// Requests to be sent in order. The caller asks for the next one, sends it,
/// and reports how that went, until none is left. `E` is what a failure is
/// reported as.
#[derive(Debug)]
pub struct Sequence<E> {
    requests: Vec<Request>,
    on_failure: OnFailure,
    sent: usize,
    failure: Option<E>,
}

/// What is left to say of a sequence once its requests are known: how many
/// have been handed out, and the failure that stopped it, if one did.
pub struct Progress<E> {
    pub sent: nat,
    pub failure: Option<E>,
}

/// How far a sequence of `len` requests is after one more report.
pub open spec fn advance<E>(
    len: nat,
    on_failure: OnFailure,
    at: Progress<E>,
    reply: Result<(), E>,
) -> Progress<E> {
    if at.failure is Some || at.sent >= len {
        at
    } else {
        Progress {
            sent: at.sent + 1,
            failure: match (on_failure, reply) {
                (OnFailure::Stop, Err(error)) => Some(error),
                _ => None,
            },
        }
    }
}

/// How far a fresh sequence of `len` requests is after the given reports.
pub open spec fn advance_all<E>(
    len: nat,
    on_failure: OnFailure,
    replies: Seq<Result<(), E>>,
) -> Progress<E>
    decreases replies.len(),
{
    if replies.len() == 0 {
        Progress { sent: 0, failure: None }
    } else {
        advance(len, on_failure, advance_all(len, on_failure, replies.drop_last()), replies.last())
    }
}

impl<E> Sequence<E> {
    /// The requests, first to last, whether sent or not.
    pub closed spec fn requests(self) -> Seq<Request> {
        self.requests@
    }

    /// What a failure does to this sequence.
    pub closed spec fn on_failure(self) -> OnFailure {
        self.on_failure
    }

    /// How far the sequence is.
    pub closed spec fn progress(self) -> Progress<E> {
        Progress { sent: self.sent as nat, failure: self.failure }
    }

    /// Whether no request is left to be sent.
    pub open spec fn finished(self) -> bool {
        self.progress().failure is Some || self.progress().sent >= self.requests().len()
    }

    /// Whether this is a sequence of exactly `requests` of which none has been
    /// sent yet.
    pub open spec fn starts(self, requests: Seq<Request>, on_failure: OnFailure) -> bool {
        &&& self.requests() == requests
        &&& self.on_failure() == on_failure
        &&& self.progress() == (Progress::<E> { sent: 0, failure: None })
    }

    /// A sequence of which nothing has been sent yet.
    pub(crate) fn new(requests: Vec<Request>, on_failure: OnFailure) -> (r: Sequence<E>)
        ensures
            r.starts(requests@, on_failure),
    {
        Sequence { requests, on_failure, sent: 0, failure: None }
    }

    /// The request to be sent now, or `None` when the sequence is finished.
    pub fn next_request(&self) -> (r: Option<&Request>)
        ensures
            self.finished() ==> r is None,
            !self.finished() ==> r == Some(&self.requests()[self.progress().sent as int]),
    {
        if self.failure.is_some() || self.sent >= self.requests.len() {
            None
        } else {
            Some(&self.requests[self.sent])
        }
    }

    /// Reports how sending the request that `next_request` gave went. On a
    /// finished sequence this changes nothing.
    pub fn replied(&mut self, reply: Result<(), E>)
        ensures
            final(self).requests() == old(self).requests(),
            final(self).on_failure() == old(self).on_failure(),
            final(self).progress() == advance(
                old(self).requests().len(),
                old(self).on_failure(),
                old(self).progress(),
                reply,
            ),
    {
        if self.failure.is_none() && self.sent < self.requests.len() {
            self.sent = self.sent + 1;
            if let (OnFailure::Stop, Err(error)) = (self.on_failure, reply) {
                self.failure = Some(error);
            }
        }
    }

    /// How the sequence ended: with the failure that stopped it, or well;
    /// `None` if a request is still left to be sent.
    pub fn outcome(self) -> (r: Option<Result<(), E>>)
        ensures
            r == match self.progress().failure {
                Some(error) => Some(Err(error)),
                None => if self.finished() {
                    Some(Ok(()))
                } else {
                    None
                },
            },
    {
        if let Some(error) = self.failure {
            Some(Err(error))
        } else if self.sent >= self.requests.len() {
            Some(Ok(()))
        } else {
            None
        }
    }
}

/// Where failures are ignored, every request is handed out, in order, whatever
/// the reports say, and the sequence never fails.
pub proof fn ignored_failures_stop_nothing<E>(len: nat, replies: Seq<Result<(), E>>)
    ensures
        advance_all(len, OnFailure::Ignore, replies).failure is None,
        advance_all(len, OnFailure::Ignore, replies).sent == if replies.len() < len {
            replies.len()
        } else {
            len
        },
    decreases replies.len(),
{
    if replies.len() > 0 {
        ignored_failures_stop_nothing(len, replies.drop_last());
    }
}

/// Where a failure stops the sequence, requests are handed out one by one as
/// long as every report is good, and the sequence has not failed.
pub proof fn success_goes_on<E>(len: nat, replies: Seq<Result<(), E>>)
    requires
        forall|i: int| 0 <= i < replies.len() && i < len ==> replies[i] is Ok,
    ensures
        advance_all(len, OnFailure::Stop, replies).failure is None,
        advance_all(len, OnFailure::Stop, replies).sent == if replies.len() < len {
            replies.len()
        } else {
            len
        },
    decreases replies.len(),
{
    if replies.len() > 0 {
        success_goes_on(len, replies.drop_last());
    }
}

/// Where a failure stops the sequence, the first bad report is the last one
/// that counts: the request it was about is the last that was handed out, and
/// what it reported is how the sequence ends.
pub proof fn first_failure_is_last<E>(len: nat, replies: Seq<Result<(), E>>, first: int)
    requires
        0 <= first < replies.len(),
        first < len,
        replies[first] is Err,
        forall|i: int| 0 <= i < first ==> replies[i] is Ok,
    ensures
        advance_all(len, OnFailure::Stop, replies) == (Progress {
            sent: (first + 1) as nat,
            failure: Some(replies[first]->Err_0),
        }),
    decreases replies.len(),
{
    let earlier = replies.drop_last();
    if first < earlier.len() {
        first_failure_is_last(len, earlier, first);
    } else {
        success_goes_on(len, earlier);
    }
}

} // verus!
