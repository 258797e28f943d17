//! The batch stream consumer: from the frames of a result stream to the
//! ordered sequence of its batches, all of one schema, or to one failure.

use crate::error::{DecodeCause, DremioClientError, StreamFailure, TransportCause};
use crate::session::Client;
use arrow::array::RecordBatch;
use arrow_flight::error::FlightError;
use vstd::prelude::*;

verus! {

/// One columnar batch: arrow's `RecordBatch`. Verus sees nothing inside it;
/// what the contracts need of it has a name below.
#[verifier::external_body]
#[derive(Debug, PartialEq)]
pub struct Batch {
    pub data: RecordBatch,
}

/// The schema that a batch carries, in a form that is equal for two batches
/// exactly where arrow holds their schemas equal.
pub uninterp spec fn batch_schema(batch: Batch) -> Seq<u8>;

/// arrow's `==` on the `Schema` of two batches, each taken with
/// `RecordBatch::schema_ref`. The contract claims that this equality is an
/// equivalence on what the batches carry as their schema.
#[verifier::external_body]
fn same_schema(a: &Batch, b: &Batch) -> (same: bool)
    ensures
        same == (batch_schema(*a) == batch_schema(*b)),
{
    a.data.schema_ref() == b.data.schema_ref()
}

/// What a result stream hands out when asked for its next item: a batch, a
/// failure, or nothing more.
pub type Frame = Option<Result<Batch, StreamFailure>>;

/// What a whole retrieval comes to, as plain values: `None` while its stream
/// has neither ended nor failed.
pub type Outcome = Option<Result<Seq<Batch>, DremioClientError>>;

/// Any two of the batches have the same schema.
pub open spec fn uniform(batches: Seq<Batch>) -> bool {
    forall|i: int, j: int|
        0 <= i < batches.len() && 0 <= j < batches.len() ==> batch_schema(batches[i])
            == batch_schema(batches[j])
}

/// Whether `batch` may follow `collected`: it is the first, or it has the
/// schema of the first.
pub open spec fn admits(collected: Seq<Batch>, batch: Batch) -> bool {
    collected.len() == 0 || batch_schema(collected[0]) == batch_schema(batch)
}

/// A retrieval under way: the batches that its stream has delivered so far.
#[derive(Debug)]
pub struct Retrieval {
    collected: Vec<Batch>,
}

impl View for Retrieval {
    type V = Seq<Batch>;

    closed spec fn view(&self) -> Seq<Batch> {
        self.collected@
    }
}

impl Retrieval {
    #[verifier::type_invariant]
    spec fn one_schema(self) -> bool {
        uniform(self.collected@)
    }

    /// The number of batches collected so far.
    pub fn len(&self) -> (n: usize)
        ensures
            n == self@.len(),
    {
        self.collected.len()
    }

    /// Whether `batch` may follow what was collected: it is the first, or it
    /// has the schema of the first.
    pub fn fits(&self, batch: &Batch) -> (fits: bool)
        ensures
            fits == admits(self@, *batch),
    {
        self.collected.len() == 0 || same_schema(&self.collected[0], batch)
    }

    /// The retrieval with `batch` at its end.
    pub fn append(self, batch: Batch) -> (next: Retrieval)
        requires
            admits(self@, batch),
        ensures
            next@ == self@.push(batch),
    {
        proof {
            use_type_invariant(&self);
        }
        let mut collected = self.collected;
        collected.push(batch);
        Retrieval { collected }
    }

    /// The result of the retrieval, now that its stream has ended.
    pub fn complete(self) -> (all: BatchSequence)
        ensures
            all@ == self@,
            uniform(all@),
    {
        proof {
            use_type_invariant(&self);
        }
        BatchSequence { batches: self.collected }
    }
}

/// The batches of one result, in the order the server streamed them. A
/// sequence is complete when it comes to be and does not change afterwards.
#[derive(Debug)]
pub struct BatchSequence {
    batches: Vec<Batch>,
}

impl View for BatchSequence {
    type V = Seq<Batch>;

    closed spec fn view(&self) -> Seq<Batch> {
        self.batches@
    }
}

impl BatchSequence {
    #[verifier::type_invariant]
    spec fn one_schema(self) -> bool {
        uniform(self.batches@)
    }

    /// The number of batches.
    pub fn len(&self) -> (n: usize)
        ensures
            n == self@.len(),
    {
        self.batches.len()
    }

    /// The batch at `index`.
    pub fn get(&self, index: usize) -> (batch: &Batch)
        requires
            index < self@.len(),
        ensures
            *batch == self@[index as int],
    {
        &self.batches[index]
    }

    /// The batches themselves, in order; any two of them have one schema.
    pub fn into_batches(self) -> (batches: Vec<Batch>)
        ensures
            batches@ == self@,
            uniform(batches@),
    {
        proof {
            use_type_invariant(&self);
        }
        self.batches
    }
}

/// Where a retrieval stands after one frame, as plain values.
pub enum Step {
    /// The frame was a batch and it was appended: ask for the next frame.
    Pull(Seq<Batch>),
    /// The stream has ended: this is the result.
    Complete(Seq<Batch>),
    /// The retrieval has failed; nothing of what was collected is kept.
    Abort(DremioClientError),
}

/// Where a retrieval stands after one frame.
#[derive(Debug)]
pub enum Progress {
    /// The frame was a batch and it was appended: ask for the next frame.
    Pull(Retrieval),
    /// The stream has ended: this is the result.
    Complete(BatchSequence),
    /// The retrieval has failed; nothing of what was collected is kept.
    Abort(DremioClientError),
}

impl View for Progress {
    type V = Step;

    open spec fn view(&self) -> Step {
        match *self {
            Progress::Pull(retrieval) => Step::Pull(retrieval@),
            Progress::Complete(all) => Step::Complete(all@),
            Progress::Abort(e) => Step::Abort(e),
        }
    }
}

/// One step of a retrieval: what becomes of `collected` when the stream
/// hands out `frame`.
///
/// The end of the stream completes the retrieval with what was collected. A
/// failure aborts it. A batch is appended if it is the first or has the
/// schema of the first; one of another schema aborts the retrieval with a
/// `Decode` failure that gives its position.
pub open spec fn step(collected: Seq<Batch>, frame: Frame) -> Step {
    match frame {
        None => Step::Complete(collected),
        Some(Err(failure)) => Step::Abort(failure.verdict()),
        Some(Ok(batch)) => if admits(collected, batch) {
            Step::Pull(collected.push(batch))
        } else {
            Step::Abort(
                DremioClientError::Decode(
                    DecodeCause::SchemaDrift { position: collected.len() as usize },
                ),
            )
        },
    }
}

/// The outcome of a retrieval that has collected `collected` and is then
/// handed `frames` one by one.
pub open spec fn run(collected: Seq<Batch>, frames: Seq<Frame>) -> Outcome
    decreases frames.len(),
{
    if frames.len() == 0 {
        None
    } else {
        match step(collected, frames[0]) {
            Step::Pull(next) => run(next, frames.drop_first()),
            Step::Complete(all) => Some(Ok(all)),
            Step::Abort(e) => Some(Err(e)),
        }
    }
}

/// The outcome of a whole retrieval, which starts with nothing collected.
pub open spec fn fetch_outcome(frames: Seq<Frame>) -> Outcome {
    run(Seq::empty(), frames)
}

impl Client {
    /// What follows the opening of a result stream: the stream, with a
    /// retrieval that has collected nothing yet, or a `Transport` failure
    /// that carries the error.
    pub fn opened<T>(&self, answer: Result<T, FlightError>) -> (r: Result<
        (T, Retrieval),
        DremioClientError,
    >)
        ensures
            answer matches Ok(stream) ==> r matches Ok(begun) && begun.0 == stream && begun.1@
                == Seq::<Batch>::empty(),
            answer matches Err(e) ==> r == Err::<(T, Retrieval), _>(
                DremioClientError::Transport(TransportCause::Flight(e)),
            ),
    {
        match answer {
            Ok(stream) => Ok((stream, Retrieval { collected: Vec::new() })),
            Err(e) => Err(DremioClientError::Transport(TransportCause::Flight(e))),
        }
    }

    /// One step of a retrieval: takes the retrieval and the frame that its
    /// stream handed out, and says how to go on.
    ///
    /// The session is not touched, and nothing but the two arguments enters
    /// the answer. On `Abort` what was collected is dropped.
    pub fn get_record_batches(&self, retrieval: Retrieval, frame: Frame) -> (progress: Progress)
        ensures
            progress@ == step(retrieval@, frame),
            progress matches Progress::Complete(all) ==> uniform(all@),
    {
        match frame {
            None => Progress::Complete(retrieval.complete()),
            Some(Err(failure)) => Progress::Abort(failure.into_error()),
            Some(Ok(batch)) => {
                if retrieval.fits(&batch) {
                    Progress::Pull(retrieval.append(batch))
                } else {
                    let position: usize = retrieval.len();
                    let cause = DecodeCause::SchemaDrift { position };
                    Progress::Abort(DremioClientError::Decode(cause))
                }
            },
        }
    }

    /// A whole retrieval over frames that are already at hand: they are taken
    /// one by one, from the first, until one of them ends the retrieval.
    /// `None` says that none did.
    pub fn drain(&self, frames: Vec<Frame>) -> (outcome: Option<
        Result<BatchSequence, DremioClientError>,
    >)
        ensures
            outcome is None <==> fetch_outcome(frames@) is None,
            outcome matches Some(Ok(all)) ==> fetch_outcome(frames@) == Some(
                Ok::<Seq<Batch>, DremioClientError>(all@),
            ) && uniform(all@),
            outcome matches Some(Err(e)) ==> fetch_outcome(frames@) == Some(
                Err::<Seq<Batch>, DremioClientError>(e),
            ),
    {
        let ghost all_frames = frames@;
        let mut rest = frames;
        let mut retrieval = Retrieval { collected: Vec::new() };
        while rest.len() > 0
            invariant
                all_frames == frames@,
                run(retrieval@, rest@) == fetch_outcome(all_frames),
            decreases rest.len(),
        {
            let ghost before = rest@;
            let frame = rest.remove(0);
            assert(rest@ =~= before.drop_first());
            match self.get_record_batches(retrieval, frame) {
                Progress::Pull(next) => {
                    retrieval = next;
                },
                Progress::Complete(all) => {
                    return Some(Ok(all));
                },
                Progress::Abort(e) => {
                    return Some(Err(e));
                },
            }
        }
        None
    }
}

} // verus!
