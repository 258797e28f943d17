//! What holds of every retrieval, proved from the definition of its steps.

use crate::error::{DecodeCause, DremioClientError, StreamFailure};
use crate::stream::{
    admits, batch_schema, fetch_outcome, run, step, uniform, Batch, Frame, Outcome, Step,
};
use vstd::prelude::*;

verus! {

/// The frames of a stream while it delivers `batches`, one frame for each.
pub open spec fn delivered(batches: Seq<Batch>) -> Seq<Frame> {
    Seq::new(batches.len(), |i: int| Some(Ok::<Batch, StreamFailure>(batches[i])))
}

/// The retrieval has ended in a `Decode` failure for a batch of another
/// schema.
pub open spec fn is_drift(outcome: Outcome) -> bool {
    outcome matches Some(Err(e)) && e matches DremioClientError::Decode(
        DecodeCause::SchemaDrift { .. },
    )
}

/// The retrieval has ended in a failure of kind `Transport` or `Decode`.
pub open spec fn is_failure(outcome: Outcome) -> bool {
    outcome matches Some(Err(e)) && (e is Transport || e is Decode)
}

/// A batch that fits what was collected leaves it of one schema.
proof fn lemma_push_keeps_uniform(collected: Seq<Batch>, batch: Batch)
    requires
        uniform(collected),
        admits(collected, batch),
    ensures
        uniform(collected.push(batch)),
{
    let next = collected.push(batch);
    assert forall|i: int, j: int| 0 <= i < next.len() && 0 <= j < next.len() implies batch_schema(
        next[i],
    ) == batch_schema(next[j]) by {
        // each of the two has the schema of the first
        if collected.len() > 0 {
            assert(batch_schema(next[i]) == batch_schema(collected[0]));
            assert(batch_schema(next[j]) == batch_schema(collected[0]));
        }
    }
}

/// Frames that deliver batches of the schema collected so far are taken up
/// one by one, and the retrieval goes on from there.
proof fn lemma_run_delivered(collected: Seq<Batch>, batches: Seq<Batch>, then: Seq<Frame>)
    requires
        uniform(collected + batches),
    ensures
        run(collected, delivered(batches) + then) == run(collected + batches, then),
    decreases batches.len(),
{
    let frames = delivered(batches) + then;
    let whole = collected + batches;
    if batches.len() > 0 {
        let batch = batches[0];
        assert(whole[collected.len() as int] == batch);
        assert(admits(collected, batch));
        assert(frames.drop_first() =~= delivered(batches.drop_first()) + then);
        assert(collected.push(batch) + batches.drop_first() =~= whole);
        lemma_run_delivered(collected.push(batch), batches.drop_first(), then);
    }
}

/// Frames that deliver batches which are not all of the schema collected so
/// far end the retrieval in a `Decode` failure at the first batch of another
/// schema, whatever follows them.
proof fn lemma_run_mixed(collected: Seq<Batch>, batches: Seq<Batch>, then: Seq<Frame>)
    requires
        uniform(collected),
        !uniform(collected + batches),
    ensures
        is_drift(run(collected, delivered(batches) + then)),
    decreases batches.len(),
{
    let frames = delivered(batches) + then;
    let whole = collected + batches;
    if batches.len() == 0 {
        assert(whole =~= collected);
    } else {
        let batch = batches[0];
        assert(frames[0] == Some(Ok::<Batch, StreamFailure>(batch)));
        if admits(collected, batch) {
            lemma_push_keeps_uniform(collected, batch);
            assert(frames.drop_first() =~= delivered(batches.drop_first()) + then);
            assert(collected.push(batch) + batches.drop_first() =~= whole);
            lemma_run_mixed(collected.push(batch), batches.drop_first(), then);
        }
    }
}

/// A retrieval that succeeds has taken up a batch for each frame before the
/// one that ended its stream.
proof fn lemma_run_success(collected: Seq<Batch>, frames: Seq<Frame>, all: Seq<Batch>)
    requires
        uniform(collected),
        run(collected, frames) == Some(Ok::<Seq<Batch>, DremioClientError>(all)),
    ensures
        uniform(all),
        collected.len() <= all.len(),
        all.len() - collected.len() < frames.len(),
        all == collected + all.skip(collected.len() as int),
        frames.take(all.len() - collected.len() + 1) == delivered(
            all.skip(collected.len() as int),
        ).push(None),
    decreases frames.len(),
{
    let grown = all.skip(collected.len() as int);
    match step(collected, frames[0]) {
        Step::Pull(next) => {
            let batch = frames[0]->Some_0->Ok_0;
            let tail = frames.drop_first();
            lemma_push_keeps_uniform(collected, batch);
            lemma_run_success(next, tail, all);
            let later = all.skip(next.len() as int);
            assert(all[collected.len() as int] == batch);
            assert(all =~= collected + grown);
            let count = all.len() - collected.len();
            assert(frames.take(count + 1) =~= delivered(grown).push(None)) by {
                assert forall|i: int| 0 <= i < count + 1 implies frames.take(count + 1)[i]
                    == delivered(grown).push(None)[i] by {
                    if i > 0 {
                        assert(tail.take(count)[i - 1] == delivered(later).push(None)[i - 1]);
                    }
                }
            }
        },
        _ => {},
    }
}

/// What has ended a retrieval keeps later frames out of it.
proof fn lemma_run_settled(collected: Seq<Batch>, frames: Seq<Frame>, later: Seq<Frame>)
    requires
        run(collected, frames) is Some,
    ensures
        run(collected, frames + later) == run(collected, frames),
    decreases frames.len(),
{
    let longer = frames + later;
    match step(collected, frames[0]) {
        Step::Pull(next) => {
            assert(longer.drop_first() =~= frames.drop_first() + later);
            lemma_run_settled(next, frames.drop_first(), later);
        },
        _ => {},
    }
}

/// The outcome of a stream that delivers `batches`, of one schema, and then
/// hands out `frame`: that of the one step which takes `frame` after all of
/// `batches` are collected, unless that step asks for more.
proof fn lemma_outcome_after(batches: Seq<Batch>, frame: Frame, later: Seq<Frame>)
    requires
        uniform(batches),
        !(step(batches, frame) is Pull),
    ensures
        fetch_outcome(delivered(batches).push(frame) + later) == match step(batches, frame) {
            Step::Complete(all) => Some(Ok::<Seq<Batch>, DremioClientError>(all)),
            Step::Abort(e) => Some(Err::<Seq<Batch>, DremioClientError>(e)),
            Step::Pull(_) => None::<Result<Seq<Batch>, DremioClientError>>,
        },
{
    let then = seq![frame] + later;
    assert(delivered(batches).push(frame) + later =~= delivered(batches) + then);
    lemma_run_delivered(Seq::empty(), batches, then);
}

/// Law: a stream that delivers batches of one schema and then ends gives
/// exactly those batches, in the order it delivered them, whatever comes
/// after its end.
pub proof fn lemma_clean_stream_collects(batches: Seq<Batch>, later: Seq<Frame>)
    requires
        uniform(batches),
    ensures
        fetch_outcome(delivered(batches).push(None) + later) == Some(
            Ok::<Seq<Batch>, DremioClientError>(batches),
        ),
{
    lemma_outcome_after(batches, None, later);
}

/// Law: a stream that ends at once gives the empty result, which is no
/// failure.
pub proof fn lemma_empty_stream_succeeds()
    ensures
        fetch_outcome(seq![None::<Result<Batch, StreamFailure>>]) == Some(
            Ok::<Seq<Batch>, DremioClientError>(Seq::empty()),
        ),
{
}

/// Law: where a retrieval succeeds, its stream has delivered the batches of
/// the result, batch for batch and in that order, and has then ended; and
/// any two batches of the result have one schema.
pub proof fn lemma_success_reproduces_stream(frames: Seq<Frame>, all: Seq<Batch>)
    requires
        fetch_outcome(frames) == Some(Ok::<Seq<Batch>, DremioClientError>(all)),
    ensures
        uniform(all),
        all.len() < frames.len(),
        frames.take(all.len() as int + 1) == delivered(all).push(None),
{
    lemma_run_success(Seq::empty(), frames, all);
}

/// Law: a stream that fails after it has delivered some batches gives one
/// failure, of kind `Transport` or `Decode`, and none of those batches.
pub proof fn lemma_failure_discards(
    batches: Seq<Batch>,
    failure: StreamFailure,
    later: Seq<Frame>,
)
    requires
        uniform(batches),
    ensures
        fetch_outcome(delivered(batches).push(Some(Err(failure))) + later) == Some(
            Err::<Seq<Batch>, DremioClientError>(failure.verdict()),
        ),
        failure.verdict() is Transport || failure.verdict() is Decode,
{
    lemma_outcome_after(batches, Some(Err(failure)), later);
}

/// Law: a batch that does not have the schema of the batches before it ends
/// the retrieval with a `Decode` failure that gives its position, and none of
/// the batches before it is kept.
pub proof fn lemma_drift_aborts(batches: Seq<Batch>, stray: Batch, later: Seq<Frame>)
    requires
        uniform(batches),
        batches.len() > 0,
        batch_schema(stray) != batch_schema(batches[0]),
    ensures
        fetch_outcome(delivered(batches).push(Some(Ok(stray))) + later) == Some(
            Err::<Seq<Batch>, DremioClientError>(
                DremioClientError::Decode(
                    DecodeCause::SchemaDrift { position: batches.len() as usize },
                ),
            ),
        ),
{
    lemma_outcome_after(batches, Some(Ok(stray)), later);
}

/// Law: a stream that delivers batches of more than one schema ends the
/// retrieval in a `Decode` failure for the schema, whatever it delivers after
/// them; it never gives a result.
pub proof fn lemma_mixed_schemas_fail(batches: Seq<Batch>, later: Seq<Frame>)
    requires
        !uniform(batches),
    ensures
        is_drift(fetch_outcome(delivered(batches) + later)),
{
    assert(Seq::<Batch>::empty() + batches =~= batches);
    lemma_run_mixed(Seq::empty(), batches, later);
}

/// Law: a stream with a failing frame gives no result, whatever the batches
/// before that frame and whatever comes after it: the retrieval ends in one
/// failure, of kind `Transport` or `Decode`.
pub proof fn lemma_failing_stream_gives_no_result(
    batches: Seq<Batch>,
    failure: StreamFailure,
    later: Seq<Frame>,
)
    ensures
        is_failure(fetch_outcome(delivered(batches).push(Some(Err(failure))) + later)),
{
    if uniform(batches) {
        lemma_failure_discards(batches, failure, later);
    } else {
        let then = seq![Some(Err::<Batch, StreamFailure>(failure))] + later;
        assert(delivered(batches).push(Some(Err(failure))) + later =~= delivered(batches) + then);
        lemma_mixed_schemas_fail(batches, then);
    }
}

/// Law: once a retrieval has ended, nothing that is delivered afterwards, to
/// it or to a later retrieval on the same session, has any part in its
/// outcome.
pub proof fn lemma_outcome_settled(frames: Seq<Frame>, later: Seq<Frame>)
    requires
        fetch_outcome(frames) is Some,
    ensures
        fetch_outcome(frames + later) == fetch_outcome(frames),
{
    lemma_run_settled(Seq::empty(), frames, later);
}

} // verus!
