//! A whole session as contracts see it, and what holds of every session.
//!
//! A session is a fresh assembler that hears a sequence of chunks in order.
//! The laws below say when it ends and what the utterance then holds, in terms
//! of the chunks alone: of which of them are silent and when they arrived.

use vstd::prelude::*;
use crate::amplitude::chunk_is_silent;
use crate::assembler::{Assembler, AssemblerModel, Chunk, ChunkModel, Progress, ProgressModel};
use crate::detector::DetectorState;
use crate::settings::StreamSettings;

verus! {

/// Where an assembler stands after hearing `chunks` in order. Chunks that
/// follow the one that ends the utterance are not heard.
pub open spec fn run<T>(from: AssemblerModel<T>, chunks: Seq<ChunkModel<T>>) -> ProgressModel<T>
    decreases chunks.len(),
{
    if chunks.len() == 0 {
        ProgressModel::Listening(from)
    } else {
        match run(from, chunks.drop_last()) {
            ProgressModel::Finished(utterance) => ProgressModel::Finished(utterance),
            ProgressModel::Listening(assembler) => assembler.advance(chunks.last()),
        }
    }
}

/// The chunks of a recorded session as contracts see them.
pub open spec fn chunk_models<T>(chunks: Seq<Chunk<T>>) -> Seq<ChunkModel<T>> {
    Seq::new(chunks.len(), |k: int| chunks[k]@)
}

impl<T> Assembler<T> {
    /// Hears recorded chunks in order, as far as the utterance goes: chunks
    /// that follow the one that ends it are dropped. Amplitudes are not
    /// reported.
    pub fn receive_all(self, chunks: Vec<Chunk<T>>) -> (progress: Progress<T>)
        ensures
            progress@ == run(self@, chunk_models(chunks@)),
    {
        let ghost from = self@;
        let ghost models = chunk_models(chunks@);
        let mut progress = Progress::Listening(self);
        for chunk in it: chunks.into_iter()
            invariant
                it.seq().len() == models.len(),
                forall|k: int| 0 <= k < models.len() ==> (#[trigger] it.seq()[k])@ == models[k],
                progress@ == run(from, models.take(it.index() as int)),
        {
            proof {
                let n = it.index() as int;
                assert(models.take(n + 1).drop_last() == models.take(n));
                assert(models.take(n + 1).last() == chunk@);
            }
            progress = match progress {
                Progress::Finished(utterance) => Progress::Finished(utterance),
                Progress::Listening(assembler) => assembler.receive(chunk).progress,
            };
        }
        proof {
            assert(models.take(models.len() as int) == models);
        }
        progress
    }
}

/// The samples of all the chunks, in order.
pub open spec fn gathered<T>(chunks: Seq<ChunkModel<T>>) -> Seq<T>
    decreases chunks.len(),
{
    if chunks.len() == 0 {
        Seq::empty()
    } else {
        gathered(chunks.drop_last()) + chunks.last().samples
    }
}

/// Whether chunk `k` counts as silent under the session's threshold.
pub open spec fn silent_at<T>(settings: StreamSettings, chunks: Seq<ChunkModel<T>>, k: int) -> bool {
    chunk_is_silent(chunks[k].levels, settings.silence_level as int)
}

/// Chunks `i` to `j` are all silent and the chunk before `i`, if there is one,
/// is not: a run of silence that begins at `i` and has lasted to `j`.
pub open spec fn silent_run<T>(
    settings: StreamSettings,
    chunks: Seq<ChunkModel<T>>,
    i: int,
    j: int,
) -> bool {
    &&& 0 <= i <= j < chunks.len()
    &&& forall|k: int| i <= k <= j ==> silent_at(settings, chunks, k)
    &&& i > 0 ==> !silent_at(settings, chunks, i - 1)
}

/// The time from chunk `i` to chunk `j`, in milliseconds.
pub open spec fn elapsed<T>(chunks: Seq<ChunkModel<T>>, i: int, j: int) -> int {
    chunks[j].at_millis - chunks[i].at_millis
}

/// No run of silence has, at any chunk before the first `n`, lasted longer
/// than the pause.
pub open spec fn no_pause_before<T>(settings: StreamSettings, chunks: Seq<ChunkModel<T>>, n: int) -> bool {
    forall|i: int, j: int|
        j < n && #[trigger] silent_run(settings, chunks, i, j) ==> elapsed(chunks, i, j)
            <= settings.pause_length_millis
}

/// The detector after the first `n` chunks, none of which ended the utterance.
pub open spec fn timer_after<T>(settings: StreamSettings, chunks: Seq<ChunkModel<T>>, n: int) -> DetectorState
    decreases n,
{
    if n <= 0 {
        DetectorState::Active
    } else {
        timer_after(settings, chunks, n - 1).after(
            silent_at(settings, chunks, n - 1),
            chunks[n - 1].at_millis,
        )
    }
}

/// The assembler after the first `n` chunks, none of which ended the utterance.
pub open spec fn listening_after<T>(
    settings: StreamSettings,
    chunks: Seq<ChunkModel<T>>,
    n: int,
) -> AssemblerModel<T> {
    AssemblerModel {
        settings,
        state: timer_after(settings, chunks, n),
        buffer: gathered(chunks.take(n)),
    }
}

/// A run of silence that has lasted to `j` has one beginning.
pub proof fn lemma_silent_run_begins_once<T>(
    settings: StreamSettings,
    chunks: Seq<ChunkModel<T>>,
    i1: int,
    i2: int,
    j: int,
)
    requires
        silent_run(settings, chunks, i1, j),
        silent_run(settings, chunks, i2, j),
    ensures
        i1 == i2,
{
    if i1 < i2 {
        assert(silent_at(settings, chunks, i2 - 1));
    }
    if i2 < i1 {
        assert(silent_at(settings, chunks, i1 - 1));
    }
}

/// The timer is set only while silence lasts, and it holds the time of the
/// chunk with which the run of silence began: after `n` chunks it is silent
/// exactly when the last of them is, since the arrival of the first chunk of
/// that run.
pub proof fn lemma_timer_marks_run_start<T>(settings: StreamSettings, chunks: Seq<ChunkModel<T>>, n: int)
    requires
        0 <= n <= chunks.len(),
    ensures
        n == 0 || !silent_at(settings, chunks, n - 1) ==> timer_after(settings, chunks, n)
            == DetectorState::Active,
        n > 0 && silent_at(settings, chunks, n - 1) ==> exists|i: int|
            #[trigger] silent_run(settings, chunks, i, n - 1) && timer_after(settings, chunks, n)
                == DetectorState::Silent(chunks[i].at_millis),
    decreases n,
{
    if n > 0 && silent_at(settings, chunks, n - 1) {
        lemma_timer_marks_run_start(settings, chunks, n - 1);
        if n - 1 == 0 || !silent_at(settings, chunks, n - 2) {
            assert(silent_run(settings, chunks, n - 1, n - 1));
        } else {
            let i = choose|i: int|
                #[trigger] silent_run(settings, chunks, i, n - 2) && timer_after(settings, chunks, n - 1)
                    == DetectorState::Silent(chunks[i].at_millis);
            assert(silent_run(settings, chunks, i, n - 1));
        }
    }
}

/// Chunk `j`, heard after the chunks before it, ends the utterance exactly
/// when the run of silence it belongs to has lasted longer than the pause.
pub proof fn lemma_finishes_iff_pause_reached<T>(settings: StreamSettings, chunks: Seq<ChunkModel<T>>, j: int)
    requires
        0 <= j < chunks.len(),
    ensures
        listening_after(settings, chunks, j).finishes_on(chunks[j]) <==> exists|i: int|
            #[trigger] silent_run(settings, chunks, i, j) && elapsed(chunks, i, j)
                > settings.pause_length_millis,
{
    let before = listening_after(settings, chunks, j);
    lemma_timer_marks_run_start(settings, chunks, j);
    if before.finishes_on(chunks[j]) {
        assert(silent_at(settings, chunks, j));
        let i = choose|i: int|
            #[trigger] silent_run(settings, chunks, i, j - 1) && timer_after(settings, chunks, j)
                == DetectorState::Silent(chunks[i].at_millis);
        assert(silent_run(settings, chunks, i, j));
    }
    if exists|i: int|
        #[trigger] silent_run(settings, chunks, i, j) && elapsed(chunks, i, j)
            > settings.pause_length_millis {
        let i = choose|i: int|
            #[trigger] silent_run(settings, chunks, i, j) && elapsed(chunks, i, j)
                > settings.pause_length_millis;
        assert(i < j);
        assert(silent_at(settings, chunks, j));
        assert(silent_at(settings, chunks, j - 1));
        assert(silent_run(settings, chunks, i, j - 1));
        let i0 = choose|i0: int|
            #[trigger] silent_run(settings, chunks, i0, j - 1) && timer_after(settings, chunks, j)
                == DetectorState::Silent(chunks[i0].at_millis);
        lemma_silent_run_begins_once(settings, chunks, i, i0, j - 1);
    }
}

/// Hearing one chunk more appends its samples to what was gathered.
pub proof fn lemma_gathered_prefix<T>(chunks: Seq<ChunkModel<T>>, n: int)
    requires
        0 <= n < chunks.len(),
    ensures
        gathered(chunks.take(n + 1)) == gathered(chunks.take(n)) + chunks[n].samples,
{
    assert(chunks.take(n + 1).drop_last() == chunks.take(n));
}

/// While no run of silence has lasted longer than the pause, the session goes
/// on: after `n` such chunks the assembler is listening, holds the samples of
/// all `n` chunks, and its timer marks the start of the silence under way.
pub proof fn lemma_listening_while_no_pause<T>(settings: StreamSettings, chunks: Seq<ChunkModel<T>>, n: int)
    requires
        0 <= n <= chunks.len(),
        no_pause_before(settings, chunks, n),
    ensures
        run(AssemblerModel::fresh(settings), chunks.take(n)) == ProgressModel::Listening(
            listening_after(settings, chunks, n),
        ),
    decreases n,
{
    let fresh = AssemblerModel::<T>::fresh(settings);
    if n == 0 {
        assert(gathered(chunks.take(0)) == Seq::<T>::empty());
        assert(listening_after(settings, chunks, 0) == fresh);
    } else {
        lemma_listening_while_no_pause(settings, chunks, n - 1);
        lemma_finishes_iff_pause_reached(settings, chunks, n - 1);
        lemma_gathered_prefix(chunks, n - 1);
        assert(chunks.take(n).drop_last() == chunks.take(n - 1));
        assert(chunks.take(n).last() == chunks[n - 1]);
        let before = listening_after(settings, chunks, n - 1);
        assert(!before.finishes_on(chunks[n - 1]));
        assert(before.continued(chunks[n - 1]) == listening_after(settings, chunks, n));
    }
}

/// Once the utterance has ended, later chunks change nothing.
pub proof fn lemma_finished_stays<T>(
    from: AssemblerModel<T>,
    chunks: Seq<ChunkModel<T>>,
    n: int,
    utterance: Seq<T>,
)
    requires
        0 <= n <= chunks.len(),
        run(from, chunks.take(n)) == ProgressModel::Finished(utterance),
    ensures
        run(from, chunks) == ProgressModel::Finished(utterance),
    decreases chunks.len() - n,
{
    if n < chunks.len() {
        assert(chunks.take(n + 1).drop_last() == chunks.take(n));
        lemma_finished_stays(from, chunks, n + 1, utterance);
    } else {
        assert(chunks.take(n) == chunks);
    }
}

/// A session in which no run of silence lasts longer than the pause never
/// ends: after every chunk the assembler is still listening, and it holds
/// exactly the samples received.
pub proof fn lemma_short_silences_never_finish<T>(settings: StreamSettings, chunks: Seq<ChunkModel<T>>)
    requires
        forall|i: int, j: int| #[trigger]
            silent_run(settings, chunks, i, j) ==> elapsed(chunks, i, j)
                <= settings.pause_length_millis,
    ensures
        forall|n: int|
            0 <= n <= chunks.len() ==> #[trigger] run(
                AssemblerModel::fresh(settings),
                chunks.take(n),
            ) == ProgressModel::Listening(listening_after(settings, chunks, n)),
        run(AssemblerModel::fresh(settings), chunks) == ProgressModel::Listening(
            listening_after(settings, chunks, chunks.len() as int),
        ),
        listening_after(settings, chunks, chunks.len() as int).buffer == gathered(chunks),
{
    assert forall|n: int| 0 <= n <= chunks.len() implies #[trigger] run(
        AssemblerModel::fresh(settings),
        chunks.take(n),
    ) == ProgressModel::Listening(listening_after(settings, chunks, n)) by {
        lemma_listening_while_no_pause(settings, chunks, n);
    }
    assert(chunks.take(chunks.len() as int) == chunks);
}

/// A run of silence that lasts longer than the pause ends the session at the
/// first chunk at which it has done so. Where the run began at chunk `i` and
/// chunk `j` is the first at which any run has lasted longer than the pause,
/// the session is still listening before chunk `j`, ends with it, and the
/// utterance holds the samples of every chunk up to and including `j`: none is
/// lost, none comes twice, and no later chunk is in it.
pub proof fn lemma_pause_finishes_utterance<T>(
    settings: StreamSettings,
    chunks: Seq<ChunkModel<T>>,
    i: int,
    j: int,
)
    requires
        silent_run(settings, chunks, i, j),
        elapsed(chunks, i, j) > settings.pause_length_millis,
        no_pause_before(settings, chunks, j),
    ensures
        run(AssemblerModel::fresh(settings), chunks.take(j)) == ProgressModel::Listening(
            listening_after(settings, chunks, j),
        ),
        run(AssemblerModel::fresh(settings), chunks.take(j + 1)) == ProgressModel::Finished(
            gathered(chunks.take(j + 1)),
        ),
        run(AssemblerModel::fresh(settings), chunks) == ProgressModel::Finished(
            gathered(chunks.take(j + 1)),
        ),
{
    let fresh = AssemblerModel::<T>::fresh(settings);
    lemma_listening_while_no_pause(settings, chunks, j);
    lemma_finishes_iff_pause_reached(settings, chunks, j);
    lemma_gathered_prefix(chunks, j);
    assert(chunks.take(j + 1).drop_last() == chunks.take(j));
    assert(chunks.take(j + 1).last() == chunks[j]);
    lemma_finished_stays(fresh, chunks, j + 1, gathered(chunks.take(j + 1)));
}

} // verus!
