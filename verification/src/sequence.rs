//! Requests carried out one after another, stopping at the first fault.

use vstd::prelude::*;
use crate::host::{
    Fault, FaultView, judge, judgement_of, outcome_is, PayloadView, Reply, ReplyView, Request,
    request_view, RequestView,
};

verus! {

/// A fixed list of requests to carry out in order. A request is asked only
/// once every request before it has succeeded; the first fault ends the
/// sequence.
#[derive(Clone, Debug, PartialEq, Eq)]
pub struct Sequence {
    steps: Vec<Request>,
    cursor: usize,
    fault: Option<Fault>,
}

/// The mathematical model of a [`Sequence`].
pub struct SequenceView {
    pub steps: Seq<RequestView>,
    pub cursor: nat,
    pub fault: Option<FaultView>,
}

impl SequenceView {
    /// The sequence with the given steps, none of them asked yet.
    pub open spec fn fresh(steps: Seq<RequestView>) -> SequenceView {
        SequenceView { steps, cursor: 0, fault: None }
    }

    /// The cursor is on a step or just past the last.
    pub open spec fn wf(self) -> bool {
        self.cursor <= self.steps.len()
    }

    /// What the sequence asks of the host next, if anything.
    pub open spec fn request(self) -> Option<RequestView> {
        if self.fault is None && self.cursor < self.steps.len() {
            Some(self.steps[self.cursor as int])
        } else {
            None
        }
    }

    /// How the sequence ended, if it has: with the first fault, or with
    /// success once every step has succeeded.
    pub open spec fn outcome(self) -> Option<Result<(), FaultView>> {
        match self.fault {
            Some(fault) => Some(Err(fault)),
            None => if self.cursor >= self.steps.len() {
                Some(Ok(()))
            } else {
                None
            },
        }
    }

    /// The sequence once the pending request has been judged.
    pub open spec fn advance(self, judgement: Result<PayloadView, FaultView>) -> SequenceView {
        if self.request() is None {
            self
        } else {
            match judgement {
                Ok(_) => SequenceView { cursor: self.cursor + 1, ..self },
                Err(fault) => SequenceView { fault: Some(fault), ..self },
            }
        }
    }

    /// The sequence after the host's reply to the pending request. A reply
    /// that arrives when nothing is pending changes nothing.
    pub open spec fn after(self, reply: ReplyView) -> SequenceView {
        match self.request() {
            Some(request) => self.advance(judgement_of(request, reply)),
            None => self,
        }
    }

    /// The sequence after each of the replies in turn.
    pub open spec fn run(self, replies: Seq<ReplyView>) -> SequenceView
        decreases replies.len(),
    {
        if replies.len() == 0 {
            self
        } else {
            self.run(replies.drop_last()).after(replies.last())
        }
    }
}

impl View for Sequence {
    type V = SequenceView;

    closed spec fn view(&self) -> SequenceView {
        SequenceView {
            steps: self.steps.deep_view(),
            cursor: self.cursor as nat,
            fault: match self.fault {
                Some(fault) => Some(fault@),
                None => None,
            },
        }
    }
}

impl Sequence {
    /// The sequence of the given steps, none of them asked yet.
    pub fn new(steps: Vec<Request>) -> (sequence: Sequence)
        ensures
            sequence@ == SequenceView::fresh(steps.deep_view()),
    {
        Sequence { steps, cursor: 0, fault: None }
    }

    /// The number of steps that have succeeded.
    pub fn completed(&self) -> (n: usize)
        ensures
            n == self@.cursor,
    {
        self.cursor
    }

    /// What to ask of the host next, if anything.
    pub fn request(&self) -> (request: Option<Request>)
        ensures
            request_view(request) == self@.request(),
    {
        if self.fault.is_none() && self.cursor < self.steps.len() {
            Some(self.steps[self.cursor].duplicate())
        } else {
            None
        }
    }

    /// Whether the sequence has ended.
    pub fn is_finished(&self) -> (finished: bool)
        ensures
            finished == self@.outcome().is_some(),
    {
        self.fault.is_some() || self.cursor >= self.steps.len()
    }

    /// Whether the sequence has ended in success.
    pub fn has_succeeded(&self) -> (succeeded: bool)
        ensures
            succeeded == (self@.outcome() == Some(Ok::<(), FaultView>(()))),
    {
        self.fault.is_none() && self.cursor >= self.steps.len()
    }

    /// Takes in the host's reply to the pending request.
    pub fn feed(&mut self, reply: Reply)
        ensures
            final(self)@ == old(self)@.after(reply@),
    {
        if self.fault.is_none() && self.cursor < self.steps.len() {
            let judged = judge(&self.steps[self.cursor], reply);
            match judged {
                Ok(_) => {
                    self.cursor = self.cursor + 1;
                },
                Err(fault) => {
                    self.fault = Some(fault);
                },
            }
        }
    }

    /// How the sequence ended, if it has.
    pub fn into_outcome(self) -> (outcome: Option<Result<(), Fault>>)
        ensures
            outcome_is(outcome, self@.outcome()),
    {
        match self.fault {
            Some(fault) => Some(Err(fault)),
            None => if self.cursor >= self.steps.len() {
                Some(Ok(()))
            } else {
                None
            },
        }
    }
}

/// Where a fresh sequence stands after any replies is decided by the first
/// reply that is not a success for its step: the steps before it were asked
/// in order and each succeeded, the fault is the one that that reply
/// carries, and no step after it is ever asked. Without such a reply every
/// reply completes one step until none is left.
pub proof fn lemma_sequence_keeps_order(steps: Seq<RequestView>, replies: Seq<ReplyView>)
    ensures
        ({
            let end = SequenceView::fresh(steps).run(replies);
            &&& end.steps == steps
            &&& end.wf()
            &&& end.cursor <= replies.len()
            &&& forall|i: int| 0 <= i < end.cursor ==> judgement_of(steps[i], replies[i]) is Ok
            &&& match end.fault {
                Some(fault) => end.cursor < replies.len() && judgement_of(
                    steps[end.cursor as int],
                    replies[end.cursor as int],
                ) == Err::<PayloadView, FaultView>(fault),
                None => end.cursor == replies.len() || end.cursor == steps.len(),
            }
        }),
    decreases replies.len(),
{
    if replies.len() > 0 {
        lemma_sequence_keeps_order(steps, replies.drop_last());
    }
}

/// A fresh sequence whose every step is answered by a success ends in
/// success after exactly as many replies as it has steps, and not before.
pub proof fn lemma_sequence_completes(steps: Seq<RequestView>, replies: Seq<ReplyView>)
    requires
        replies.len() <= steps.len(),
        forall|i: int| 0 <= i < replies.len() ==> judgement_of(steps[i], replies[i]) is Ok,
    ensures
        SequenceView::fresh(steps).run(replies) == (SequenceView {
            steps,
            cursor: replies.len(),
            fault: None,
        }),
        SequenceView::fresh(steps).run(replies).outcome() == if replies.len() == steps.len() {
            Some(Ok::<(), FaultView>(()))
        } else {
            None
        },
    decreases replies.len(),
{
    if replies.len() > 0 {
        lemma_sequence_completes(steps, replies.drop_last());
    }
}

/// A sequence asks for something exactly as long as it has not ended.
pub proof fn lemma_sequence_asks_until_done(sequence: SequenceView)
    ensures
        sequence.request() is None <==> sequence.outcome() is Some,
{
}

} // verus!
