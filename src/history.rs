use std::collections::VecDeque;
use vstd::prelude::*;

verus! {

/// How many samples a core's history keeps.
pub const HISTORY_CAPACITY: usize = 75;

/// The history after one sample: the oldest sample leaves first when the
/// history is full.
pub open spec fn bounded_push(h: Seq<u64>, sample: u64) -> Seq<u64> {
    if h.len() >= HISTORY_CAPACITY {
        h.drop_first().push(sample)
    } else {
        h.push(sample)
    }
}

/// The history after a run of samples, taken in order.
pub open spec fn history_after(h: Seq<u64>, samples: Seq<u64>) -> Seq<u64>
    decreases samples.len(),
{
    if samples.len() == 0 {
        h
    } else {
        history_after(bounded_push(h, samples[0]), samples.drop_first())
    }
}

/// The last `min(len, HISTORY_CAPACITY)` elements of a sequence.
pub open spec fn most_recent(s: Seq<u64>) -> Seq<u64> {
    if s.len() > HISTORY_CAPACITY {
        s.subrange(s.len() - HISTORY_CAPACITY, s.len() as int)
    } else {
        s
    }
}

/// Appends `sample` to `history`, first evicting the oldest sample when the
/// history already holds `HISTORY_CAPACITY` of them.
pub fn push_sample(history: &mut VecDeque<u64>, sample: u64)
    ensures
        final(history)@ == bounded_push(old(history)@, sample),
{
    if history.len() >= HISTORY_CAPACITY {
        history.pop_front();
    }
    history.push_back(sample);
}

/// One tick on a history of 1 to `HISTORY_CAPACITY` samples gives a history
/// one longer, capped at `HISTORY_CAPACITY`, so it stays within 1 to
/// `HISTORY_CAPACITY`.
pub proof fn lemma_tick_length(h: Seq<u64>, sample: u64)
    requires
        1 <= h.len() <= HISTORY_CAPACITY,
    ensures
        bounded_push(h, sample).len() == if h.len() + 1 > HISTORY_CAPACITY {
            HISTORY_CAPACITY as int
        } else {
            h.len() + 1int
        },
        1 <= bounded_push(h, sample).len() <= HISTORY_CAPACITY,
{
}

/// Taking one more sample after a run of samples is the same as taking the
/// longer run: each call of `push_sample` (or `AppState::record_tick`) on a
/// history extends the run it has seen by one sample.
pub proof fn lemma_history_after_push(h: Seq<u64>, samples: Seq<u64>, sample: u64)
    ensures
        history_after(h, samples.push(sample)) == bounded_push(history_after(h, samples), sample),
    decreases samples.len(),
{
    if samples.len() == 0 {
        assert(seq![sample].drop_first() =~= Seq::<u64>::empty());
        assert(samples.push(sample) =~= seq![sample]);
        assert(history_after(bounded_push(h, sample), Seq::<u64>::empty()) == bounded_push(
            h,
            sample,
        ));
    } else {
        assert(samples.push(sample)[0] == samples[0]);
        assert(samples.push(sample).drop_first() =~= samples.drop_first().push(sample));
        lemma_history_after_push(bounded_push(h, samples[0]), samples.drop_first(), sample);
    }
}

/// A history that holds at most `HISTORY_CAPACITY` samples, after any run of
/// further samples, holds exactly the most recent `HISTORY_CAPACITY` of all
/// samples seen (or all of them, when fewer were seen), oldest first.
pub proof fn lemma_history_keeps_most_recent(h: Seq<u64>, samples: Seq<u64>)
    requires
        h.len() <= HISTORY_CAPACITY,
    ensures
        history_after(h, samples) == most_recent(h + samples),
    decreases samples.len(),
{
    if samples.len() == 0 {
        assert(h + samples =~= h);
    } else {
        let h1 = bounded_push(h, samples[0]);
        let rest = samples.drop_first();
        lemma_history_keeps_most_recent(h1, rest);
        if h.len() >= HISTORY_CAPACITY {
            assert(h1 + rest =~= (h + samples).subrange(1, (h.len() + samples.len()) as int));
        } else {
            assert(h1 + rest =~= h + samples);
        }
        assert(most_recent(h1 + rest) =~= most_recent(h + samples));
    }
}

/// The length of a history that started within capacity, after any run of
/// samples, is the number of samples seen in all, capped at
/// `HISTORY_CAPACITY`.
pub proof fn lemma_history_length(h: Seq<u64>, samples: Seq<u64>)
    requires
        h.len() <= HISTORY_CAPACITY,
    ensures
        history_after(h, samples).len() == if h.len() + samples.len() > HISTORY_CAPACITY {
            HISTORY_CAPACITY as int
        } else {
            (h.len() + samples.len()) as int
        },
{
    lemma_history_keeps_most_recent(h, samples);
}

/// A history seeded with one sample, after any run of ticks, is as long as
/// the number of samples seen (ticks plus the seed), capped at
/// `HISTORY_CAPACITY`, and holds the most recent of them, oldest first.
pub proof fn lemma_seeded_history(seed: u64, ticks: Seq<u64>)
    ensures
        history_after(seq![seed], ticks).len() == if ticks.len() + 1 > HISTORY_CAPACITY {
            HISTORY_CAPACITY as int
        } else {
            ticks.len() + 1int
        },
        history_after(seq![seed], ticks) == most_recent(seq![seed] + ticks),
{
    lemma_history_keeps_most_recent(seq![seed], ticks);
    lemma_history_length(seq![seed], ticks);
}

} // verus!
