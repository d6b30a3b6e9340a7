//! The handle of a computation that runs in the background: its result
//! arrives once on a channel and is kept, so that every later look gives the
//! same answer.

use vstd::prelude::*;
use crate::error::{error_text, Error, ErrorView, rview};
use crate::text::owned;

verus! {

#[verifier::external_type_specification]
#[verifier::external_body]
#[verifier::reject_recursive_types(T)]
pub struct ExReceiver<T>(tokio::sync::mpsc::Receiver<T>);

/// What a look at the channel found.
pub enum Received {
    /// The result.
    Value(Result<Vec<i64>, Error>),
    /// Nothing yet.
    Empty,
    /// The sender is gone without a result.
    Disconnected,
}

/// Calls `Receiver::try_recv` and tells its outcomes apart. Nothing is
/// claimed: what is there depends on the computation's progress.
#[verifier::external_body]
fn try_receive(rx: &mut tokio::sync::mpsc::Receiver<Result<Vec<i64>, Error>>) -> (r: Received)
{
    match rx.try_recv() {
        Ok(v) => Received::Value(v),
        Err(tokio::sync::mpsc::error::TryRecvError::Empty) => Received::Empty,
        Err(tokio::sync::mpsc::error::TryRecvError::Disconnected) => Received::Disconnected,
    }
}

/// The result kept by a handle: none yet, the values, or the error's text.
#[derive(Clone, Debug)]
pub enum CachedResult {
    Pending,
    Values(Vec<i64>),
    Failed(String),
}

/// The message when the computation ended without a result.
pub open spec fn dropped_text() -> Seq<char> {
    "Computation task was dropped"@
}

/// What a kept result gives back: the values, or a computation error with
/// the kept text; nothing while pending.
pub open spec fn cached_answer(c: CachedResult) -> Option<Result<Seq<i64>, ErrorView>> {
    match c {
        CachedResult::Pending => None,
        CachedResult::Values(v) => Some(Ok(v@)),
        CachedResult::Failed(m) => Some(Err(ErrorView::Computation(m@))),
    }
}

/// A result as plain values.
pub open spec fn answer(r: Result<Vec<i64>, Error>) -> Result<Seq<i64>, ErrorView> {
    match r {
        Ok(v) => Ok(v@),
        Err(e) => Err(rview(Err::<(), Error>(e))->Err_0),
    }
}

/// What a handle keeps of a result that arrived: the values, or a
/// computation error with the error's text.
pub open spec fn kept_answer(x: Result<Vec<i64>, Error>) -> Result<Seq<i64>, ErrorView> {
    match x {
        Ok(v) => Ok(v@),
        Err(e) => Err(ErrorView::Computation(error_text(e))),
    }
}

fn copy_values(v: &Vec<i64>) -> (c: Vec<i64>)
    ensures
        c@ == v@,
{
    let mut c: Vec<i64> = Vec::new();
    let mut i: usize = 0;
    while i < v.len()
        invariant
            i <= v@.len(),
            c@ =~= v@.take(i as int),
        decreases v@.len() - i,
    {
        c.push(v[i]);
        i = i + 1;
    }
    assert(v@.take(v@.len() as int) =~= v@);
    c
}

impl CachedResult {
    /// The answer kept, if any.
    pub fn answer(&self) -> (r: Option<Result<Vec<i64>, Error>>)
        ensures
            match r {
                None => cached_answer(*self) is None,
                Some(x) => cached_answer(*self) == Some(answer(x)),
            },
    {
        match self {
            CachedResult::Pending => None,
            CachedResult::Values(v) => Some(Ok(copy_values(v))),
            CachedResult::Failed(m) => Some(Err(Error::Computation(owned(m.as_str())))),
        }
    }
}

/// The handle of a computation running in the background.
pub struct ComputationHandle {
    output_rx: tokio::sync::mpsc::Receiver<Result<Vec<i64>, Error>>,
    cached: CachedResult,
}

impl ComputationHandle {
    /// The result kept so far.
    pub closed spec fn cached_spec(&self) -> CachedResult {
        self.cached
    }

    /// The channel the result arrives on.
    pub closed spec fn receiver_spec(&self) -> tokio::sync::mpsc::Receiver<Result<Vec<i64>, Error>> {
        self.output_rx
    }

    /// A handle on the channel the result will arrive on.
    pub fn new(output_rx: tokio::sync::mpsc::Receiver<Result<Vec<i64>, Error>>) -> (h: Self)
        ensures
            h.cached_spec() is Pending,
    {
        ComputationHandle { output_rx, cached: CachedResult::Pending }
    }

    /// The result kept so far, if any (see [`cached_answer`]).
    pub fn cached(&self) -> (r: Option<Result<Vec<i64>, Error>>)
        ensures
            match r {
                None => cached_answer(self.cached_spec()) is None,
                Some(x) => cached_answer(self.cached_spec()) == Some(answer(x)),
            },
    {
        self.cached.answer()
    }

    /// The channel the result arrives on.
    pub fn receiver(&mut self) -> (rx: &mut tokio::sync::mpsc::Receiver<Result<Vec<i64>, Error>>)
        ensures
            *rx == old(self).receiver_spec(),
            final(self).receiver_spec() == *final(rx),
            final(self).cached_spec() == old(self).cached_spec(),
    {
        &mut self.output_rx
    }

    /// Takes what a wait on the channel gave: a result is kept and handed
    /// back; a closed channel is an error. A result kept earlier wins.
    pub fn finish(&mut self, received: Option<Result<Vec<i64>, Error>>) -> (r: Result<Vec<i64>, Error>)
        ensures
            old(self).cached_spec() !is Pending ==> final(self).cached_spec() == old(self).cached_spec()
                && Some(answer(r)) == cached_answer(old(self).cached_spec()),
            old(self).cached_spec() is Pending ==> match received {
                Some(x) => answer(r) == answer(x) && cached_answer(final(self).cached_spec()) == Some(
                    kept_answer(x),
                ),
                None => answer(r) == Err::<Seq<i64>, ErrorView>(ErrorView::Computation(dropped_text()))
                    && final(self).cached_spec() is Pending,
            },
    {
        match self.cached.answer() {
            Some(r) => {
                return r;
            },
            None => {},
        }
        match received {
            Some(result) => {
                match &result {
                    Ok(v) => {
                        self.cached = CachedResult::Values(copy_values(v));
                    },
                    Err(e) => {
                        self.cached = CachedResult::Failed(e.message());
                    },
                }
                result
            },
            None => Err(Error::Computation(owned("Computation task was dropped"))),
        }
    }

    /// Looks for the result without waiting: the kept one, else one that
    /// arrived (which is kept), else `None` while the computation runs, or
    /// an error when it ended without a result.
    pub fn try_result(&mut self) -> (r: Option<Result<Vec<i64>, Error>>)
        ensures
            old(self).cached_spec() !is Pending ==> final(self).cached_spec() == old(self).cached_spec(),
            old(self).cached_spec() !is Pending ==> (r matches Some(x) && Some(answer(x)) == cached_answer(
                old(self).cached_spec(),
            )),
            old(self).cached_spec() is Pending && r is None ==> final(self).cached_spec() is Pending,
            old(self).cached_spec() is Pending ==> (r matches Some(x) ==> ((final(self).cached_spec() is Pending
                && answer(x) == Err::<Seq<i64>, ErrorView>(ErrorView::Computation(dropped_text())))
                || cached_answer(final(self).cached_spec()) == Some(kept_answer(x)))),
    {
        match self.cached.answer() {
            Some(r) => {
                return Some(r);
            },
            None => {},
        }
        match try_receive(&mut self.output_rx) {
            Received::Value(result) => Some(self.finish(Some(result))),
            Received::Empty => None,
            Received::Disconnected => Some(self.finish(None)),
        }
    }

    /// Gives up the handle.
    pub fn cancel(self) {
    }
}

} // verus!
