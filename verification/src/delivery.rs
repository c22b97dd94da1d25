use vstd::prelude::*;
use vstd::string::*;

verus! {

/// The number of attempts after which a send that is still rate limited is given up,
/// where the caller has no reason to choose another.
pub const DEFAULT_ATTEMPTS: u32 = 5;

/// What is remembered between the attempts of one send: the wait that the platform
/// asked for last, and how many retries were granted so far.
#[derive(Clone, Copy, Debug, PartialEq, Eq)]
pub struct RetryState {
    pub wait_ms: u64,
    pub attempts: u32,
}

/// How one attempt to send ended.
#[derive(Clone, Copy, Debug, PartialEq, Eq)]
pub enum SendOutcome {
    Delivered,
    /// The platform refused for now and asks to wait `wait_ms` milliseconds.
    RateLimited { wait_ms: u64 },
    /// Any other failure.
    Failed,
}

/// What to do after an attempt.
#[derive(Clone, Copy, Debug, PartialEq, Eq)]
pub enum DeliveryStep {
    /// The message is out.
    Done,
    /// Report the wait, block for exactly `wait_ms` milliseconds, then send again.
    RetryAfter { wait_ms: u64 },
    /// Still rate limited at the last attempt allowed: report it, the message is dropped.
    GiveUp { wait_ms: u64 },
    /// Report the failure, the message is dropped.
    Dropped,
}

/// The retry rule: a rate-limited attempt is repeated after the wait that the platform
/// names, as long as fewer than `limit` attempts were made; nothing else is repeated.
pub open spec fn retry_step(retry: RetryState, limit: u32, outcome: SendOutcome) -> (
    RetryState,
    DeliveryStep,
) {
    match outcome {
        SendOutcome::Delivered => (retry, DeliveryStep::Done),
        SendOutcome::Failed => (retry, DeliveryStep::Dropped),
        SendOutcome::RateLimited { wait_ms } => if retry.attempts + 1 < limit {
            (
                RetryState { wait_ms, attempts: (retry.attempts + 1) as u32 },
                DeliveryStep::RetryAfter { wait_ms },
            )
        } else {
            (RetryState { wait_ms, ..retry }, DeliveryStep::GiveUp { wait_ms })
        },
    }
}

/// Number of retries that are granted while `outcomes` come in, one after the other.
pub open spec fn retries_granted(retry: RetryState, limit: u32, outcomes: Seq<SendOutcome>) -> nat
    decreases outcomes.len(),
{
    if outcomes.len() == 0 {
        0
    } else {
        let (next, step) = retry_step(retry, limit, outcomes[0]);
        retries_granted(next, limit, outcomes.drop_first()) + if step is RetryAfter {
            1nat
        } else {
            0nat
        }
    }
}

/// However long the platform keeps limiting, one send is attempted at most `limit`
/// times: fewer than `limit` retries are granted, counting those granted before.
pub proof fn lemma_retries_bounded(retry: RetryState, limit: u32, outcomes: Seq<SendOutcome>)
    requires
        retry.attempts < limit,
    ensures
        retry.attempts + retries_granted(retry, limit, outcomes) < limit,
    decreases outcomes.len(),
{
    if outcomes.len() != 0 {
        let (next, step) = retry_step(retry, limit, outcomes[0]);
        lemma_retries_bounded(next, limit, outcomes.drop_first());
    }
}

/// One outbound message on its way: where it goes, what it says, and the retry state.
pub struct Delivery {
    channel: u64,
    text: String,
    limit: u32,
    retry: RetryState,
}

pub struct DeliveryView {
    pub channel: u64,
    pub text: Seq<char>,
    pub limit: u32,
    pub retry: RetryState,
}

impl View for Delivery {
    type V = DeliveryView;

    closed spec fn view(&self) -> DeliveryView {
        DeliveryView {
            channel: self.channel,
            text: self.text@,
            limit: self.limit,
            retry: self.retry,
        }
    }
}

impl Delivery {
    /// A message that was not attempted yet, to be attempted at most `limit` times.
    pub fn new(channel: u64, text: &str, limit: u32) -> (d: Delivery)
        ensures
            d@ == (DeliveryView {
                channel,
                text: text@,
                limit,
                retry: RetryState { wait_ms: 0, attempts: 0 },
            }),
    {
        Delivery {
            channel,
            text: String::from_str(text),
            limit,
            retry: RetryState { wait_ms: 0, attempts: 0 },
        }
    }

    /// The channel to send to.
    pub fn channel(&self) -> (r: u64)
        ensures
            r == self@.channel,
    {
        self.channel
    }

    /// The text to send, at every attempt the text that the delivery was made with.
    pub fn text(&self) -> (r: &str)
        ensures
            r@ == self@.text,
    {
        self.text.as_str()
    }

    /// The retry state.
    pub fn retry(&self) -> (r: RetryState)
        ensures
            r == self@.retry,
    {
        self.retry
    }

    /// Takes in how an attempt ended and says what to do next. Neither the channel nor
    /// the text changes.
    pub fn record(&mut self, outcome: SendOutcome) -> (step: DeliveryStep)
        ensures
            final(self)@ == (DeliveryView {
                retry: retry_step(old(self)@.retry, old(self)@.limit, outcome).0,
                ..old(self)@
            }),
            step == retry_step(old(self)@.retry, old(self)@.limit, outcome).1,
            step is RetryAfter ==> final(self)@.retry.attempts == old(self)@.retry.attempts + 1
                && final(self)@.retry.attempts < old(self)@.limit,
    {
        match outcome {
            SendOutcome::Delivered => DeliveryStep::Done,
            SendOutcome::Failed => DeliveryStep::Dropped,
            SendOutcome::RateLimited { wait_ms } => {
                if self.retry.attempts < u32::MAX && self.retry.attempts + 1 < self.limit {
                    self.retry = RetryState { wait_ms, attempts: self.retry.attempts + 1 };
                    DeliveryStep::RetryAfter { wait_ms }
                } else {
                    self.retry = RetryState { wait_ms, attempts: self.retry.attempts };
                    DeliveryStep::GiveUp { wait_ms }
                }
            },
        }
    }
}

} // verus!
