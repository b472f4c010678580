//! How a streamed response ended.

use vstd::prelude::*;

verus! {

/// How a streamed response ended, once it has. What is recorded first stays.
///
/// Handles that share one outcome keep it behind a lock of their own.
pub struct StreamCompletion {
    inner: Option<Result<(), String>>,
}

impl View for StreamCompletion {
    type V = Option<Result<(), Seq<char>>>;

    closed spec fn view(&self) -> Option<Result<(), Seq<char>>> {
        match self.inner {
            None => None,
            Some(Ok(_)) => Some(Ok(())),
            Some(Err(message)) => Some(Err(message@)),
        }
    }
}

/// The outcome after `report` came in: the first report stays.
pub open spec fn settled(
    outcome: Option<Result<(), Seq<char>>>,
    report: Result<(), Seq<char>>,
) -> Option<Result<(), Seq<char>>> {
    match outcome {
        None => Some(report),
        Some(first) => Some(first),
    }
}

/// The outcome after a list of reports came in one after the other.
pub open spec fn settled_all(
    outcome: Option<Result<(), Seq<char>>>,
    reports: Seq<Result<(), Seq<char>>>,
) -> Option<Result<(), Seq<char>>>
    decreases reports.len(),
{
    if reports.len() == 0 {
        outcome
    } else {
        settled(settled_all(outcome, reports.drop_last()), reports.last())
    }
}

impl Default for StreamCompletion {
    fn default() -> (completion: Self)
        ensures
            completion@ is None,
    {
        StreamCompletion { inner: None }
    }
}

impl StreamCompletion {
    /// Records that the stream ended well, unless an outcome is recorded already.
    pub fn record_success(&mut self)
        ensures
            final(self)@ == settled(old(self)@, Ok(())),
    {
        if self.inner.is_none() {
            self.inner = Some(Ok(()));
        }
    }

    /// Records that the stream failed, unless an outcome is recorded already.
    pub fn record_error(&mut self, message: String)
        ensures
            final(self)@ == settled(old(self)@, Err(message@)),
    {
        if self.inner.is_none() {
            self.inner = Some(Err(message));
        }
    }

    /// The outcome, if one is recorded.
    pub fn outcome(&self) -> (outcome: Option<Result<(), String>>)
        ensures
            match outcome {
                None => self@ is None,
                Some(Ok(_)) => self@ == Some(Ok::<(), Seq<char>>(())),
                Some(Err(message)) => self@ == Some(Err::<(), Seq<char>>(message@)),
            },
    {
        match &self.inner {
            None => None,
            Some(Ok(_)) => Some(Ok(())),
            Some(Err(message)) => Some(Err(message.clone())),
        }
    }
}

/// Of any number of reports, the first one is the outcome, and no later one changes it.
pub proof fn first_report_stays(
    outcome: Option<Result<(), Seq<char>>>,
    reports: Seq<Result<(), Seq<char>>>,
)
    ensures
        settled_all(outcome, reports) == (if outcome is Some || reports.len() == 0 {
            outcome
        } else {
            Some(reports.first())
        }),
    decreases reports.len(),
{
    if reports.len() > 0 {
        first_report_stays(outcome, reports.drop_last());
    }
}

} // verus!
