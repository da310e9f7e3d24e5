use vstd::prelude::*;

verus! {

/// The single error taxonomy of the library: whatever the remote client
/// reported when a batch was submitted, carried verbatim. The library never
/// retries, classifies or logs; the caller decides what to do with it.
#[derive(Debug)]
pub struct RemoteSendError {
    /// The remote client's description of the failure.
    pub message: String,
}

impl Clone for RemoteSendError {
    fn clone(&self) -> (e: Self)
        ensures
            e.message@ == self.message@,
    {
        RemoteSendError { message: self.message.clone() }
    }
}

/// What one run of the sampler loop did: how many batches it submitted, how
/// many times it slept the configured frequency, and the error that ended
/// it, if one did.
#[derive(Debug)]
pub struct StreamReport {
    /// Batches submitted, each shaped from one snapshot.
    pub sends: usize,
    /// Sleeps of the configured frequency, one after each successful send.
    pub sleeps: usize,
    /// The first send error, unchanged, or nothing when the snapshot source
    /// was exhausted without a failure.
    pub failure: Option<RemoteSendError>,
}

/// The sampler loop's behaviour over one run, with the remote endpoint's
/// answers given as data: `outcomes[i]` is what submitting the batch shaped
/// from the `i`-th snapshot would report, nothing for an accepted batch.
///
/// One batch is submitted per snapshot the source yields, in order, with a
/// sleep after each accepted one; the first rejected batch ends the run at
/// once — its error is returned unchanged, nothing further is submitted and
/// the loop does not sleep again. A source exhausted without a failure is
/// normal completion.
pub fn stream_outcome(outcomes: &Vec<Option<RemoteSendError>>) -> (r: StreamReport)
    ensures
        match r.failure {
            Option::None => {
                &&& r.sends == outcomes@.len()
                &&& r.sleeps == outcomes@.len()
                &&& forall|i: int| 0 <= i < outcomes@.len() ==> (#[trigger] outcomes@[i])
                    is None
            },
            Option::Some(e) => {
                &&& 1 <= r.sends <= outcomes@.len()
                &&& r.sleeps == r.sends - 1
                &&& outcomes@[r.sends - 1] matches Option::Some(orig) && e.message@
                    == orig.message@
                &&& forall|i: int| 0 <= i < r.sends - 1 ==> (#[trigger] outcomes@[i])
                    is None
            },
        },
{
    let mut sends: usize = 0;
    let mut sleeps: usize = 0;
    let mut i: usize = 0;
    while i < outcomes.len()
        invariant
            i <= outcomes@.len(),
            sends == i,
            sleeps == i,
            forall|j: int| 0 <= j < i ==> (#[trigger] outcomes@[j]) is None,
        decreases outcomes@.len() - i,
    {
        sends = sends + 1;
        match &outcomes[i] {
            Option::None => {
                sleeps = sleeps + 1;
                i = i + 1;
            },
            Option::Some(e) => {
                return StreamReport { sends, sleeps, failure: Option::Some(e.clone()) };
            },
        }
    }
    StreamReport { sends, sleeps, failure: Option::None }
}

} // verus!
