//! Sending the requests of one job, one after the other.
//!
//! The dispatcher holds the decisions: which request is sent next, and what
//! becomes of each answer. The caller sends the request that `next` names
//! and hands what came back to `record`, which gives the state to go on
//! from. A request that fails is recorded like any other, and the next one
//! is sent all the same.

use vstd::prelude::*;
use vstd::string::*;
use crate::api_client::{request_views, APIClient, Request, RequestView};
use crate::logging::{LogEntry, LogLevel};

verus! {

/// What became of one request.
#[derive(Debug, PartialEq, Eq)]
pub enum Outcome {
    /// The provider answered; the body of its answer is kept as it came.
    Updated(String),
    /// The request could not be sent, or its answer could not be read; the
    /// reason is kept.
    Failed(String),
}

/// The mathematical value of an [`Outcome`].
pub enum OutcomeView {
    Updated(Seq<char>),
    Failed(Seq<char>),
}

impl View for Outcome {
    type V = OutcomeView;

    open spec fn view(&self) -> OutcomeView {
        match *self {
            Outcome::Updated(body) => OutcomeView::Updated(body@),
            Outcome::Failed(reason) => OutcomeView::Failed(reason@),
        }
    }
}

/// The value of each outcome of a list.
pub open spec fn outcome_views(outcomes: Seq<Outcome>) -> Seq<OutcomeView> {
    outcomes.map_values(|o: Outcome| o@)
}

impl OutcomeView {
    /// The level at which the outcome is logged.
    pub open spec fn level(self) -> LogLevel {
        match self {
            OutcomeView::Updated(_) => LogLevel::INFO,
            OutcomeView::Failed(_) => LogLevel::ERROR,
        }
    }

    /// What the provider answered, or why the request failed.
    pub open spec fn text(self) -> Seq<char> {
        match self {
            OutcomeView::Updated(body) => body,
            OutcomeView::Failed(reason) => reason,
        }
    }

    /// The message that reports the outcome of a request for `domain`:
    /// domain, record type, method, and the answer or the reason.
    pub open spec fn message(self, domain: Seq<char>, request: RequestView) -> Seq<char> {
        domain + " "@ + request.record.text() + " "@ + request.method.text() + " "@ + self.text()
    }
}

/// The mathematical value of a [`Dispatcher`]: the requests to send, and
/// the outcomes of those that were sent, in the same order.
pub struct DispatcherView {
    pub plan: Seq<RequestView>,
    pub outcomes: Seq<OutcomeView>,
}

impl DispatcherView {
    /// The state before anything is sent.
    pub open spec fn start(plan: Seq<RequestView>) -> DispatcherView {
        DispatcherView { plan, outcomes: Seq::empty() }
    }

    /// Whether every request has its outcome.
    pub open spec fn finished(self) -> bool {
        self.outcomes.len() >= self.plan.len()
    }

    /// The request to send next, if one is left.
    pub open spec fn next(self) -> Option<RequestView> {
        if self.finished() {
            None
        } else {
            Some(self.plan[self.outcomes.len() as int])
        }
    }

    /// The state after the request that was sent came to `outcome`. Once
    /// every request has its outcome, nothing is recorded any more.
    pub open spec fn record(self, outcome: OutcomeView) -> DispatcherView {
        if self.finished() {
            self
        } else {
            DispatcherView { plan: self.plan, outcomes: self.outcomes.push(outcome) }
        }
    }

    /// The state after the requests that were sent came to `outcomes`, one
    /// after the other.
    pub open spec fn run(self, outcomes: Seq<OutcomeView>) -> DispatcherView
        decreases outcomes.len(),
    {
        if outcomes.len() == 0 {
            self
        } else {
            self.run(outcomes.drop_last()).record(outcomes.last())
        }
    }

    /// Every request of the plan is sent, whatever became of those before
    /// it: after the first `k` outcomes the `k`-th request is next, and
    /// with the last outcome the work is finished, each request with its
    /// own outcome.
    pub proof fn lemma_every_request_is_sent(plan: Seq<RequestView>, outcomes: Seq<OutcomeView>)
        requires
            outcomes.len() <= plan.len(),
        ensures
            Self::start(plan).run(outcomes).plan == plan,
            Self::start(plan).run(outcomes).outcomes == outcomes,
            outcomes.len() < plan.len() ==> Self::start(plan).run(outcomes).next() == Some(
                plan[outcomes.len() as int],
            ),
            outcomes.len() == plan.len() <==> Self::start(plan).run(outcomes).finished(),
        decreases outcomes.len(),
    {
        if outcomes.len() > 0 {
            Self::lemma_every_request_is_sent(plan, outcomes.drop_last());
            assert(outcomes.drop_last().push(outcomes.last()) =~= outcomes);
        }
    }
}

/// Sends the requests of one job in order and keeps what became of each.
#[derive(Debug)]
pub struct Dispatcher {
    plan: Vec<Request>,
    outcomes: Vec<Outcome>,
}

impl View for Dispatcher {
    type V = DispatcherView;

    closed spec fn view(&self) -> DispatcherView {
        DispatcherView { plan: request_views(self.plan@), outcomes: outcome_views(self.outcomes@) }
    }
}

impl Dispatcher {
    /// Holds of every value of the type: no more outcomes than requests.
    #[verifier::type_invariant]
    pub open spec fn valid(self) -> bool {
        self@.outcomes.len() <= self@.plan.len()
    }

    /// Starts on a plan.
    pub fn new(plan: Vec<Request>) -> (dispatcher: Dispatcher)
        ensures
            dispatcher@ == DispatcherView::start(request_views(plan@)),
    {
        let outcomes: Vec<Outcome> = Vec::new();
        assert(outcome_views(outcomes@) =~= Seq::empty());
        Dispatcher { plan, outcomes }
    }

    /// Whether every request has its outcome.
    pub fn finished(&self) -> (done: bool)
        ensures
            done == self@.finished(),
            done <==> self@.outcomes.len() == self@.plan.len(),
    {
        proof {
            use_type_invariant(self);
        }
        self.outcomes.len() >= self.plan.len()
    }

    /// The request to send next, if one is left.
    pub fn next(&self) -> (request: Option<&Request>)
        ensures
            match request {
                Some(r) => self@.next() == Some(r@),
                None => self@.next() is None,
            },
    {
        let sent = self.outcomes.len();
        if sent < self.plan.len() {
            Some(&self.plan[sent])
        } else {
            None
        }
    }

    /// Records what became of the request that `next` named, and goes on
    /// to the request after it. Where no request was waiting for an
    /// outcome, nothing changes.
    pub fn record(self, outcome: Outcome) -> (after: Dispatcher)
        ensures
            after@ == self@.record(outcome@),
    {
        if self.outcomes.len() < self.plan.len() {
            let ghost before = outcome_views(self.outcomes@);
            let Dispatcher { plan, mut outcomes } = self;
            outcomes.push(outcome);
            assert(outcome_views(outcomes@) =~= before.push(outcome@));
            Dispatcher { plan, outcomes }
        } else {
            self
        }
    }

    /// The outcomes so far, in the order of the requests.
    pub fn outcomes(&self) -> (outcomes: &Vec<Outcome>)
        ensures
            outcome_views(outcomes@) == self@.outcomes,
            outcomes@.len() <= self@.plan.len(),
    {
        proof {
            use_type_invariant(self);
        }
        &self.outcomes
    }

    /// The requests of the plan.
    pub fn plan(&self) -> (plan: &Vec<Request>)
        ensures
            request_views(plan@) == self@.plan,
    {
        &self.plan
    }
}

impl APIClient {
    /// The log entry that reports the outcome of one request of the job:
    /// the answer of the provider as information, a failure as an error.
    pub fn manage_request(&self, request: &Request, outcome: &Outcome) -> (entry: LogEntry)
        ensures
            entry.level == outcome@.level(),
            entry.message@ == outcome@.message(self@.domain, request@),
    {
        let mut message = String::from_str(self.domain());
        message.append(" ");
        message.append(request.record.as_str());
        message.append(" ");
        message.append(request.method.as_str());
        message.append(" ");
        match outcome {
            Outcome::Updated(body) => {
                message.append(body.as_str());
                LogEntry { level: LogLevel::INFO, message }
            },
            Outcome::Failed(reason) => {
                message.append(reason.as_str());
                LogEntry { level: LogLevel::ERROR, message }
            },
        }
    }
}

} // verus!
