use vstd::prelude::*;
use crate::outside::{build_get, describe, get_url_builds};

verus! {

/// Where one GET request stands: waiting for the response to come through
/// the channel, reading its body, or done.
#[derive(PartialEq, Eq, Structural, Clone, Copy, Debug)]
pub enum FetchPhase {
    Waiting,
    Reading,
    Done,
}

/// What can happen to a request, stripped of its data.
#[derive(PartialEq, Eq, Structural, Clone, Copy, Debug)]
pub enum Signal {
    /// The response arrived through the channel.
    Responded,
    /// The request failed on its way (connection, DNS, timeout, ...).
    TransportFailed,
    /// The channel closed without a value: its sender was dropped.
    Closed,
    /// The body was read as text.
    BodyRead,
    /// The body could not be read.
    BodyFailed,
}

/// The phase after `s` happens in phase `p`.
pub open spec fn fetch_next(p: FetchPhase, s: Signal) -> FetchPhase {
    match (p, s) {
        (FetchPhase::Waiting, Signal::Responded) => FetchPhase::Reading,
        (FetchPhase::Waiting, Signal::TransportFailed) => FetchPhase::Done,
        (FetchPhase::Waiting, Signal::Closed) => FetchPhase::Done,
        (FetchPhase::Reading, Signal::BodyRead) => FetchPhase::Done,
        (FetchPhase::Reading, Signal::BodyFailed) => FetchPhase::Done,
        _ => p,
    }
}

/// Whether `s` in phase `p` hands a result on to the callback.
pub open spec fn fetch_delivers(p: FetchPhase, s: Signal) -> bool {
    match (p, s) {
        (FetchPhase::Waiting, Signal::TransportFailed) => true,
        (FetchPhase::Reading, Signal::BodyRead) => true,
        (FetchPhase::Reading, Signal::BodyFailed) => true,
        _ => false,
    }
}

/// What the caller does next.
pub enum Step {
    /// Read the body of this response as text, and report it with `on_body`.
    ReadBody(reqwest::Response),
    /// Hand this result to the task, for the callback.
    Deliver(Result<String, String>),
    /// An event came that cannot happen in correct use: stop.
    Fault,
}

/// The signal that a value received from the channel stands for.
pub open spec fn response_signal(r: Option<Result<reqwest::Response, reqwest::Error>>) -> Signal {
    match r {
        Some(Ok(_)) => Signal::Responded,
        Some(Err(_)) => Signal::TransportFailed,
        None => Signal::Closed,
    }
}

/// The signal that the outcome of reading the body stands for.
pub open spec fn body_signal(r: Result<String, reqwest::Error>) -> Signal {
    match r {
        Ok(_) => Signal::BodyRead,
        Err(_) => Signal::BodyFailed,
    }
}

/// The decisions of one GET request, between the awaits that the caller makes.
pub struct Fetch {
    phase: FetchPhase,
}

impl Fetch {
    pub closed spec fn phase_spec(&self) -> FetchPhase {
        self.phase
    }

    /// A request whose response is awaited.
    pub fn new() -> (f: Fetch)
        ensures
            f.phase_spec() == FetchPhase::Waiting,
    {
        Fetch { phase: FetchPhase::Waiting }
    }

    pub fn phase(&self) -> (p: FetchPhase)
        ensures
            p == self.phase_spec(),
    {
        self.phase
    }

    /// Takes what came through the channel: `None` where it closed without a
    /// value. A response is to be read; a transport error is delivered as
    /// its non-empty description; a closed channel is a fault.
    pub fn on_response(&mut self, r: Option<Result<reqwest::Response, reqwest::Error>>) -> (s: Step)
        ensures
            final(self).phase_spec() == fetch_next(old(self).phase_spec(), response_signal(r)),
            (s is Deliver) == fetch_delivers(old(self).phase_spec(), response_signal(r)),
            old(self).phase_spec() == FetchPhase::Waiting ==> match r {
                Some(Ok(resp)) => s == Step::ReadBody(resp),
                Some(Err(_)) => s is Deliver && s->Deliver_0 is Err && s->Deliver_0->Err_0@.len() > 0,
                None => s is Fault,
            },
            old(self).phase_spec() != FetchPhase::Waiting ==> s is Fault,
    {
        match self.phase {
            FetchPhase::Waiting => match r {
                Some(Ok(resp)) => {
                    self.phase = FetchPhase::Reading;
                    Step::ReadBody(resp)
                },
                Some(Err(e)) => {
                    self.phase = FetchPhase::Done;
                    Step::Deliver(Err(describe(&e)))
                },
                None => {
                    self.phase = FetchPhase::Done;
                    Step::Fault
                },
            },
            _ => Step::Fault,
        }
    }

    /// Takes the outcome of reading the body: the text is delivered as it
    /// is, a failure as its non-empty description.
    pub fn on_body(&mut self, r: Result<String, reqwest::Error>) -> (s: Step)
        ensures
            final(self).phase_spec() == fetch_next(old(self).phase_spec(), body_signal(r)),
            (s is Deliver) == fetch_delivers(old(self).phase_spec(), body_signal(r)),
            old(self).phase_spec() == FetchPhase::Reading ==> match r {
                Ok(b) => s == Step::Deliver(Ok(b)),
                Err(_) => s is Deliver && s->Deliver_0 is Err && s->Deliver_0->Err_0@.len() > 0,
            },
            old(self).phase_spec() != FetchPhase::Reading ==> s is Fault,
    {
        match self.phase {
            FetchPhase::Reading => {
                self.phase = FetchPhase::Done;
                match r {
                    Ok(b) => Step::Deliver(Ok(b)),
                    Err(e) => Step::Deliver(Err(describe(&e))),
                }
            },
            _ => Step::Fault,
        }
    }
}

/// Whether `s` in phase `p` is the channel closing before any value came.
pub open spec fn fetch_faults(p: FetchPhase, s: Signal) -> bool {
    p == FetchPhase::Waiting && s == Signal::Closed
}

/// The phase after the signals `ss`, from phase `p`.
pub open spec fn fetch_run(p: FetchPhase, ss: Seq<Signal>) -> FetchPhase
    decreases ss.len(),
{
    if ss.len() == 0 {
        p
    } else {
        fetch_run(fetch_next(p, ss[0]), ss.drop_first())
    }
}

/// How many results are handed on to the callback over the signals `ss`.
pub open spec fn fetch_deliveries(p: FetchPhase, ss: Seq<Signal>) -> nat
    decreases ss.len(),
{
    if ss.len() == 0 {
        0
    } else {
        (if fetch_delivers(p, ss[0]) { 1nat } else { 0nat }) + fetch_deliveries(fetch_next(p, ss[0]), ss.drop_first())
    }
}

/// How many faults occur over the signals `ss`.
pub open spec fn fetch_fault_count(p: FetchPhase, ss: Seq<Signal>) -> nat
    decreases ss.len(),
{
    if ss.len() == 0 {
        0
    } else {
        (if fetch_faults(p, ss[0]) { 1nat } else { 0nat }) + fetch_fault_count(fetch_next(p, ss[0]), ss.drop_first())
    }
}

/// Once done, a request hands on nothing more, whatever follows. A request
/// that is not yet done, and ends done, hands on exactly one result, unless
/// its channel closed without a value; one that does not end done hands on
/// none yet.
pub proof fn lemma_fetch_once(p: FetchPhase, ss: Seq<Signal>)
    ensures
        p == FetchPhase::Done ==> fetch_deliveries(p, ss) == 0 && fetch_fault_count(p, ss) == 0
            && fetch_run(p, ss) == FetchPhase::Done,
        p != FetchPhase::Done ==> fetch_deliveries(p, ss) + fetch_fault_count(p, ss)
            == (if fetch_run(p, ss) == FetchPhase::Done { 1nat } else { 0nat }),
    decreases ss.len(),
{
    if ss.len() > 0 {
        lemma_fetch_once(fetch_next(p, ss[0]), ss.drop_first());
    }
}

/// The results that the callbacks of many independent requests get in all:
/// one for each request that ended without a fault.
pub open spec fn total_deliveries(runs: Seq<Seq<Signal>>) -> nat
    decreases runs.len(),
{
    if runs.len() == 0 {
        0
    } else {
        fetch_deliveries(FetchPhase::Waiting, runs[0]) + total_deliveries(runs.drop_first())
    }
}

/// Requests run side by side, each with its own `Fetch`, each ending done
/// without a fault, hand on exactly one result each: as many in all as there
/// are requests.
pub proof fn lemma_requests_deliver_once_each(runs: Seq<Seq<Signal>>)
    requires
        forall|k: int| 0 <= k < runs.len() ==> fetch_run(FetchPhase::Waiting, #[trigger] runs[k]) == FetchPhase::Done
            && fetch_fault_count(FetchPhase::Waiting, runs[k]) == 0,
    ensures
        total_deliveries(runs) == runs.len(),
        forall|k: int| 0 <= k < runs.len() ==> fetch_deliveries(FetchPhase::Waiting, #[trigger] runs[k]) == 1,
    decreases runs.len(),
{
    assert forall|k: int| 0 <= k < runs.len() implies fetch_deliveries(FetchPhase::Waiting, #[trigger] runs[k]) == 1 by {
        lemma_fetch_once(FetchPhase::Waiting, runs[k]);
    }
    if runs.len() > 0 {
        let rest = runs.drop_first();
        assert forall|k: int| 0 <= k < rest.len() implies fetch_run(FetchPhase::Waiting, #[trigger] rest[k]) == FetchPhase::Done
            && fetch_fault_count(FetchPhase::Waiting, rest[k]) == 0 by {
            assert(rest[k] == runs[k + 1]);
        }
        lemma_requests_deliver_once_each(rest);
    }
}

/// The request, or the non-empty description of why it could not be built.
pub fn settle_build(r: Result<reqwest::Request, reqwest::Error>) -> (out: Result<reqwest::Request, String>)
    ensures
        match r {
            Ok(req) => out == Ok::<reqwest::Request, String>(req),
            Err(_) => out is Err && out->Err_0@.len() > 0,
        },
{
    match r {
        Ok(req) => Ok(req),
        Err(e) => Err(describe(&e)),
    }
}

/// A host-visible client: it owns one HTTP client for its whole lifetime and
/// lends it to each request that it builds.
pub struct ClientHandle {
    client: reqwest::Client,
}

impl ClientHandle {
    pub closed spec fn client_spec(&self) -> reqwest::Client {
        self.client
    }

    pub fn from_client(client: reqwest::Client) -> (h: ClientHandle)
        ensures
            h.client_spec() == client,
    {
        ClientHandle { client }
    }

    /// The owned client, lent out to run the requests that it built.
    pub fn client(&self) -> (c: &reqwest::Client)
        ensures
            *c == self.client_spec(),
    {
        &self.client
    }

    /// A GET request for `url` against the owned client; where it cannot be
    /// built (a malformed URL), the non-empty description that the callback
    /// is to get. The handle is only borrowed.
    pub fn prepare(&self, url: &str) -> (r: Result<reqwest::Request, String>)
        ensures
            (r is Ok) == get_url_builds(url@),
            r is Err ==> r->Err_0@.len() > 0,
    {
        settle_build(build_get(&self.client, url))
    }
}

} // verus!
