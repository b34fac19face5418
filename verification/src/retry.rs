//! Bounded retries, and polling for a path to appear.

use vstd::prelude::*;
use crate::host::{
    Fault, FaultView, judge, judgement_of, outcome_is, Payload, PayloadView, Reply, ReplyView,
    Request, request_view, RequestView, ResourceNotReadyError,
};

verus! {

/// The number of times readiness is checked again after the first check.
pub const READINESS_RETRIES: u32 = 20;

/// The pause between two readiness checks, in milliseconds.
pub const READINESS_INTERVAL_MILLIS: u64 = 50;

/// A fixed number of retries, spent one at a time.
#[derive(Clone, Copy, Debug, PartialEq, Eq, Structural)]
pub struct RetryBudget {
    limit: u32,
    used: u32,
}

impl RetryBudget {
    /// The number of retries allowed in all.
    pub closed spec fn spec_limit(&self) -> nat {
        self.limit as nat
    }

    /// The number of retries spent so far.
    pub closed spec fn spec_used(&self) -> nat {
        self.used as nat
    }

    /// A fresh budget of `limit` retries.
    pub fn new(limit: u32) -> (budget: RetryBudget)
        ensures
            budget.spec_limit() == limit,
            budget.spec_used() == 0,
    {
        RetryBudget { limit, used: 0 }
    }

    /// The number of retries allowed in all.
    pub fn limit(&self) -> (n: u32)
        ensures
            n == self.spec_limit(),
    {
        self.limit
    }

    /// The number of retries spent so far.
    pub fn used(&self) -> (n: u32)
        ensures
            n == self.spec_used(),
    {
        self.used
    }

    /// Spends one retry if any is left, and says whether one was.
    pub fn spend(&mut self) -> (granted: bool)
        ensures
            final(self).spec_limit() == old(self).spec_limit(),
            granted == (old(self).spec_used() < old(self).spec_limit()),
            final(self).spec_used() == old(self).spec_used() + if granted {
                1nat
            } else {
                0nat
            },
    {
        if self.used < self.limit {
            self.used = self.used + 1;
            true
        } else {
            false
        }
    }
}

/// Where a poll stands.
#[derive(Clone, Debug, PartialEq, Eq)]
pub enum PollState {
    /// The next thing to do is to look for the path.
    Probing,
    /// The path was not there; the next thing to do is to wait.
    Waiting,
    /// The path was seen.
    Ready,
    /// The path was not there and no retry is left.
    Exhausted,
    /// The host could not look or could not wait.
    Broken { fault: Fault },
}

/// The text of a [`PollState`].
pub enum PollStateView {
    Probing,
    Waiting,
    Ready,
    Exhausted,
    Broken { fault: FaultView },
}

impl View for PollState {
    type V = PollStateView;

    open spec fn view(&self) -> PollStateView {
        match self {
            PollState::Probing => PollStateView::Probing,
            PollState::Waiting => PollStateView::Waiting,
            PollState::Ready => PollStateView::Ready,
            PollState::Exhausted => PollStateView::Exhausted,
            PollState::Broken { fault } => PollStateView::Broken { fault: fault@ },
        }
    }
}

/// Polls for a path to exist: one look, then up to `limit` more, each after
/// a pause of `interval_millis`.
#[derive(Clone, Debug, PartialEq, Eq)]
pub struct Poller {
    path: String,
    interval_millis: u64,
    budget: RetryBudget,
    state: PollState,
}

/// The mathematical model of a [`Poller`].
pub struct PollerView {
    pub path: Seq<char>,
    pub interval_millis: u64,
    pub limit: nat,
    pub used: nat,
    pub state: PollStateView,
}

impl PollerView {
    /// No more retries are recorded than are allowed.
    pub open spec fn wf(self) -> bool {
        self.used <= self.limit
    }

    /// What the poller asks of the host next, if anything.
    pub open spec fn request(self) -> Option<RequestView> {
        match self.state {
            PollStateView::Probing => Some(RequestView::Probe { path: self.path }),
            PollStateView::Waiting => Some(RequestView::Sleep { millis: self.interval_millis }),
            _ => None,
        }
    }

    /// How the poll ended, if it has.
    pub open spec fn outcome(self) -> Option<Result<(), FaultView>> {
        match self.state {
            PollStateView::Ready => Some(Ok(())),
            PollStateView::Exhausted => Some(Err(FaultView::NotReady { path: self.path })),
            PollStateView::Broken { fault } => Some(Err(fault)),
            _ => None,
        }
    }

    /// The poller once the pending request has been judged.
    ///
    /// A look that finds the path ends the poll. A look that does not
    /// spends a retry and waits, or ends the poll as exhausted when none is
    /// left. A wait is followed by a look. A fault ends the poll.
    pub open spec fn advance(self, judgement: Result<PayloadView, FaultView>) -> PollerView {
        match self.state {
            PollStateView::Probing => match judgement {
                Ok(PayloadView::Presence { present }) => if present {
                    PollerView { state: PollStateView::Ready, ..self }
                } else if self.used < self.limit {
                    PollerView { state: PollStateView::Waiting, used: self.used + 1, ..self }
                } else {
                    PollerView { state: PollStateView::Exhausted, ..self }
                },
                Ok(_) => PollerView {
                    state: PollStateView::Broken { fault: FaultView::Unexpected },
                    ..self
                },
                Err(fault) => PollerView { state: PollStateView::Broken { fault }, ..self },
            },
            PollStateView::Waiting => match judgement {
                Ok(_) => PollerView { state: PollStateView::Probing, ..self },
                Err(fault) => PollerView { state: PollStateView::Broken { fault }, ..self },
            },
            _ => self,
        }
    }

    /// The poller after the host's reply to the pending request. A reply
    /// that arrives when nothing is pending changes nothing.
    pub open spec fn after(self, reply: ReplyView) -> PollerView {
        match self.request() {
            Some(request) => self.advance(judgement_of(request, reply)),
            None => self,
        }
    }

    /// An upper bound on the number of requests still to come.
    pub open spec fn fuel(self) -> nat {
        match self.state {
            PollStateView::Probing => (2 * (self.limit - self.used) + 1) as nat,
            PollStateView::Waiting => (2 * (self.limit - self.used) + 2) as nat,
            _ => 0,
        }
    }

    /// The time, in milliseconds, of the waits asked for so far.
    pub open spec fn waited_millis(self) -> int {
        self.used * self.interval_millis
    }

    /// The poller after each of the replies in turn.
    pub open spec fn run(self, replies: Seq<ReplyView>) -> PollerView
        decreases replies.len(),
    {
        if replies.len() == 0 {
            self
        } else {
            self.run(replies.drop_last()).after(replies.last())
        }
    }

    /// The poller after `misses` rounds of looking in vain and waiting.
    pub open spec fn after_misses(self, misses: nat) -> PollerView
        decreases misses,
    {
        if misses == 0 {
            self
        } else {
            self.after(ReplyView::Exists { present: false }).after(ReplyView::Done).after_misses(
                (misses - 1) as nat,
            )
        }
    }
}

impl View for Poller {
    type V = PollerView;

    closed spec fn view(&self) -> PollerView {
        PollerView {
            path: self.path@,
            interval_millis: self.interval_millis,
            limit: self.budget.spec_limit(),
            used: self.budget.spec_used(),
            state: self.state@,
        }
    }
}

impl Poller {
    /// A poller for `path` that has not looked yet.
    pub fn new(path: String, limit: u32, interval_millis: u64) -> (poller: Poller)
        ensures
            poller@ == (PollerView {
                path: path@,
                interval_millis,
                limit: limit as nat,
                used: 0,
                state: PollStateView::Probing,
            }),
    {
        Poller { path, interval_millis, budget: RetryBudget::new(limit), state: PollState::Probing }
    }

    /// A poller for `path` with the standard budget and pause.
    pub fn standard(path: String) -> (poller: Poller)
        ensures
            poller@ == (PollerView {
                path: path@,
                interval_millis: READINESS_INTERVAL_MILLIS,
                limit: READINESS_RETRIES as nat,
                used: 0,
                state: PollStateView::Probing,
            }),
    {
        Poller::new(path, READINESS_RETRIES, READINESS_INTERVAL_MILLIS)
    }

    /// The number of retries spent so far, which is the number of waits
    /// asked for.
    pub fn retries_used(&self) -> (n: u32)
        ensures
            n == self@.used,
    {
        self.budget.used()
    }

    /// What to ask of the host next, if anything.
    pub fn request(&self) -> (request: Option<Request>)
        ensures
            request_view(request) == self@.request(),
    {
        match &self.state {
            PollState::Probing => Some(Request::Probe { path: self.path.clone() }),
            PollState::Waiting => Some(Request::Sleep { millis: self.interval_millis }),
            _ => None,
        }
    }

    /// Whether the poll has ended.
    pub fn is_finished(&self) -> (finished: bool)
        ensures
            finished == self@.outcome().is_some(),
    {
        match &self.state {
            PollState::Probing => false,
            PollState::Waiting => false,
            _ => true,
        }
    }

    /// Whether the poll has ended with the path seen.
    pub fn has_succeeded(&self) -> (succeeded: bool)
        ensures
            succeeded == (self@.outcome() == Some(Ok::<(), FaultView>(()))),
    {
        match &self.state {
            PollState::Ready => true,
            _ => false,
        }
    }

    /// Takes in the host's reply to the pending request.
    pub fn feed(&mut self, reply: Reply)
        ensures
            final(self)@ == old(self)@.after(reply@),
    {
        match self.request() {
            Some(request) => {
                let judged = judge(&request, reply);
                self.advance(judged);
            },
            None => {},
        }
    }

    fn advance(&mut self, judged: Result<Payload, Fault>)
        ensures
            final(self)@ == old(self)@.advance(crate::host::judgement_view(judged)),
    {
        match &self.state {
            PollState::Probing => match judged {
                Ok(Payload::Presence { present }) => {
                    if present {
                        self.state = PollState::Ready;
                    } else if self.budget.spend() {
                        self.state = PollState::Waiting;
                    } else {
                        self.state = PollState::Exhausted;
                    }
                },
                Ok(_) => {
                    self.state = PollState::Broken { fault: Fault::Unexpected };
                },
                Err(fault) => {
                    self.state = PollState::Broken { fault };
                },
            },
            PollState::Waiting => match judged {
                Ok(_) => {
                    self.state = PollState::Probing;
                },
                Err(fault) => {
                    self.state = PollState::Broken { fault };
                },
            },
            _ => {},
        }
    }

    /// How the poll ended, if it has: ready, or the fault that ended it. A
    /// poll that ran out of retries ends with `NotReady` for its path.
    pub fn into_outcome(self) -> (outcome: Option<Result<(), Fault>>)
        ensures
            outcome_is(outcome, self@.outcome()),
    {
        match self.state {
            PollState::Ready => Some(Ok(())),
            PollState::Exhausted => Some(
                Err(Fault::NotReady { resource: ResourceNotReadyError { path: self.path } }),
            ),
            PollState::Broken { fault } => Some(Err(fault)),
            _ => None,
        }
    }
}

/// Every reply to an unfinished poll brings it strictly nearer its end, and
/// a wait is asked for only by spending a retry: so a poll asks for at most
/// `limit` waits and `limit + 1` looks, and waits for at most
/// `limit * interval_millis` milliseconds in all.
pub proof fn lemma_poll_is_bounded(poller: PollerView, reply: ReplyView)
    requires
        poller.wf(),
        poller.outcome() is None,
    ensures
        poller.after(reply).wf(),
        poller.after(reply).fuel() < poller.fuel(),
        poller.fuel() <= 2 * poller.limit + 2,
        poller.after(reply).path == poller.path,
        poller.after(reply).limit == poller.limit,
        poller.after(reply).interval_millis == poller.interval_millis,
        poller.after(reply).state is Waiting ==> poller.after(reply).used == poller.used + 1,
        !(poller.after(reply).state is Waiting) ==> poller.after(reply).used == poller.used,
{
}

/// A poll ends whatever the host answers: it has ended once it has been
/// given as many replies as its fuel, which is `2 * limit + 1` for a fresh
/// poll; and at no point has it asked for more than `limit` waits, or for
/// more than `limit * interval_millis` milliseconds of waiting.
pub proof fn lemma_poll_terminates(poller: PollerView, replies: Seq<ReplyView>)
    requires
        poller.wf(),
    ensures
        poller.run(replies).wf(),
        poller.run(replies).limit == poller.limit,
        poller.run(replies).interval_millis == poller.interval_millis,
        poller.run(replies).used >= poller.used,
        poller.run(replies).waited_millis() <= poller.limit * poller.interval_millis,
        poller.run(replies).fuel() <= poller.fuel(),
        poller.run(replies).fuel() + replies.len() <= poller.fuel() || poller.run(
            replies,
        ).outcome() is Some,
        replies.len() >= poller.fuel() ==> poller.run(replies).outcome() is Some,
    decreases replies.len(),
{
    if replies.len() > 0 {
        lemma_poll_terminates(poller, replies.drop_last());
        let before = poller.run(replies.drop_last());
        if before.outcome() is None {
            lemma_poll_is_bounded(before, replies.last());
        }
    }
    let used = poller.run(replies).used as int;
    let limit = poller.limit as int;
    let interval = poller.interval_millis as int;
    assert(used * interval <= limit * interval) by (nonlinear_arith)
        requires
            0 <= used <= limit,
            0 <= interval,
    ;
}

/// A path that is missing at the first `misses` looks and present at the
/// next is reported ready at exactly that look, after exactly `misses`
/// waits, provided the budget allows that many.
pub proof fn lemma_poll_ready_at(poller: PollerView, misses: nat)
    requires
        poller.state is Probing,
        poller.used + misses <= poller.limit,
    ensures
        poller.after_misses(misses).state is Probing,
        poller.after_misses(misses).outcome() is None,
        poller.after_misses(misses).used == poller.used + misses,
        poller.after_misses(misses).after(ReplyView::Exists { present: true }) == (PollerView {
            state: PollStateView::Ready,
            used: poller.used + misses,
            ..poller
        }),
        poller.after_misses(misses).after(ReplyView::Exists { present: true }).outcome() == Some(
            Ok::<(), FaultView>(()),
        ),
    decreases misses,
{
    if misses > 0 {
        let next = poller.after(ReplyView::Exists { present: false }).after(ReplyView::Done);
        lemma_poll_ready_at(next, (misses - 1) as nat);
    }
}

/// A path that stays missing exhausts the budget: after `limit` rounds of
/// looking in vain and waiting, one more look in vain ends the poll with
/// `NotReady` for the path.
pub proof fn lemma_poll_exhausts(poller: PollerView)
    requires
        poller.state is Probing,
        poller.used <= poller.limit,
    ensures
        poller.after_misses((poller.limit - poller.used) as nat).after(
            ReplyView::Exists { present: false },
        ).outcome() == Some(Err::<(), FaultView>(FaultView::NotReady { path: poller.path })),
    decreases poller.limit - poller.used,
{
    if poller.used < poller.limit {
        let next = poller.after(ReplyView::Exists { present: false }).after(ReplyView::Done);
        lemma_poll_exhausts(next);
    }
}

/// A poll asks for something exactly as long as it has not ended.
pub proof fn lemma_poll_asks_until_done(poller: PollerView)
    ensures
        poller.request() is None <==> poller.outcome() is Some,
{
}

} // verus!
