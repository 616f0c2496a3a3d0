//! State of a queue that plays sounds one after the other.
use vstd::prelude::*;

verus! {

/// Number of samples in a frame when neither the current source nor its size
/// hint tells how many samples are left.
pub const THRESHOLD: usize = 512;

/// What the output of a queue does once the current source has been asked for
/// its next sample.
#[derive(Debug)]
pub enum QueueStep<T> {
    /// The output yields this: a sample, or `None` when the queue has finished.
    Yield(Option<T>),
    /// The current source had run dry and the next queued source took its
    /// place: ask the new current source for its sample.
    Advance,
}

/// The frame length that the output of a queue reports.
///
/// `inner_frame_len` is what the current source reports as its frame length,
/// `inner_lower_bound` the lower bound of its size hint, and `pending_len` the
/// number of sources queued after it.
pub open spec fn spec_frame_len(
    keep_alive_if_empty: bool,
    pending_len: nat,
    inner_frame_len: Option<usize>,
    inner_lower_bound: usize,
) -> usize {
    if inner_frame_len is Some && inner_frame_len->0 != 0 {
        inner_frame_len->0
    } else if inner_frame_len is Some && keep_alive_if_empty && pending_len == 0 {
        THRESHOLD
    } else if inner_lower_bound > 0 {
        inner_lower_bound
    } else {
        THRESHOLD
    }
}

/// What the output of a queue does with `inner`, the sample that its current
/// source gave, when `pending_len` sources are queued after that one: a sample
/// is passed on; a source that ran dry gives way to the next queued one; with
/// none queued, the queue plays `silence` if kept alive, and else finishes.
pub open spec fn spec_next_step<T>(keep_alive_if_empty: bool, pending_len: nat, inner: Option<T>, silence: T) -> QueueStep<T> {
    match inner {
        Some(sample) => QueueStep::Yield(Some(sample)),
        None => if pending_len > 0 {
            QueueStep::Advance
        } else if keep_alive_if_empty {
            QueueStep::Yield(Some(silence))
        } else {
            QueueStep::Yield(None)
        },
    }
}

/// The samples that the output of a queue that is not kept alive yields, when
/// its current source has the samples `current` left and the sources queued
/// after it have the samples in `pending`: each output call asks the current
/// source for a sample and does what `spec_next_step` says.
pub open spec fn spec_played<T>(current: Seq<T>, pending: Seq<Seq<T>>, silence: T) -> Seq<T>
    decreases pending.len(), current.len(),
{
    if current.len() > 0 {
        match spec_next_step(false, pending.len(), Some(current[0]), silence) {
            QueueStep::Yield(Some(sample)) => seq![sample] + spec_played(current.drop_first(), pending, silence),
            _ => Seq::empty(),
        }
    } else {
        match spec_next_step(false, pending.len(), None::<T>, silence) {
            QueueStep::Advance => if pending.len() > 0 {
                spec_played(pending[0], pending.drop_first(), silence)
            } else {
                Seq::empty()
            },
            _ => Seq::empty(),
        }
    }
}

/// A queue plays its sounds one after the other: its output is the samples of
/// the current source, then those of each queued source in the order in which
/// they were added, and then it finishes.
pub proof fn lemma_plays_one_after_the_other<T>(current: Seq<T>, pending: Seq<Seq<T>>, silence: T)
    ensures
        spec_played(current, pending, silence) == current + pending.flatten(),
    decreases pending.len(), current.len(),
{
    if current.len() > 0 {
        lemma_plays_one_after_the_other(current.drop_first(), pending, silence);
        assert(current =~= seq![current[0]] + current.drop_first());
        assert(seq![current[0]] + (current.drop_first() + pending.flatten()) =~= (seq![current[0]]
            + current.drop_first()) + pending.flatten());
    } else if pending.len() > 0 {
        lemma_plays_one_after_the_other(pending[0], pending.drop_first(), silence);
        assert(current + pending.flatten() =~= pending.flatten());
    } else {
        assert(current + pending.flatten() =~= Seq::<T>::empty());
    }
}

/// What the output of a queue does when asked for a sample, whatever the
/// keep-alive setting: a sample of the current source is passed on; a source
/// that ran dry gives way to the next queued one whenever one is queued; only
/// when none is queued does the queue play silence (if kept alive) or finish.
pub proof fn lemma_next_step_cases<T>(keep_alive_if_empty: bool, pending_len: nat, inner: Option<T>, silence: T)
    ensures
        inner is Some ==> spec_next_step(keep_alive_if_empty, pending_len, inner, silence) == QueueStep::Yield(inner),
        inner is None && pending_len > 0 ==> spec_next_step(keep_alive_if_empty, pending_len, inner, silence) is Advance,
        inner is None && pending_len == 0 && keep_alive_if_empty ==> spec_next_step(
            keep_alive_if_empty,
            pending_len,
            inner,
            silence,
        ) == QueueStep::Yield(Some(silence)),
        inner is None && pending_len == 0 && !keep_alive_if_empty ==> spec_next_step(
            keep_alive_if_empty,
            pending_len,
            inner,
            silence,
        ) == QueueStep::<T>::Yield(None),
        spec_next_step(keep_alive_if_empty, pending_len, inner, silence) is Advance <==> (inner is None
            && pending_len > 0),
{
}

/// Moving on to the next source makes the first queued source the current
/// one and keeps the others queued in their order; adding a source puts it
/// after all those already queued; clearing drops every queued source;
/// restarting drops every source and plays the given one. None of these
/// changes the keep-alive setting.
pub proof fn lemma_queue_transitions<Src>(queue: QueueView<Src>, source: Src)
    ensures
        queue.pending.len() > 0 ==> queue.advanced().current == queue.pending[0],
        queue.pending.len() > 0 ==> queue.advanced().pending.len() == queue.pending.len() - 1,
        forall|k: int|
            0 <= k < queue.pending.len() - 1 ==> #[trigger] queue.advanced().pending[k] == queue.pending[k + 1],
        queue.appended(source).pending.len() == queue.pending.len() + 1,
        queue.appended(source).pending.last() == source,
        forall|k: int| 0 <= k < queue.pending.len() ==> #[trigger] queue.appended(source).pending[k] == queue.pending[k],
        queue.appended(source).current == queue.current,
        queue.pending_cleared().pending.len() == 0,
        queue.pending_cleared().current == queue.current,
        queue.restarted_with(source).current == source,
        queue.restarted_with(source).pending.len() == 0,
        queue.advanced().keep_alive_if_empty == queue.keep_alive_if_empty,
        queue.appended(source).keep_alive_if_empty == queue.keep_alive_if_empty,
        queue.pending_cleared().keep_alive_if_empty == queue.keep_alive_if_empty,
        queue.restarted_with(source).keep_alive_if_empty == queue.keep_alive_if_empty,
{
}

/// A queue kept alive never finishes: once no source is left it plays
/// silence. A queue not kept alive finishes exactly when its last source has
/// run dry. A sample of the current source is always passed on unchanged.
pub proof fn lemma_keep_alive_never_finishes<T>(keep_alive_if_empty: bool, pending_len: nat, inner: Option<T>, silence: T)
    ensures
        keep_alive_if_empty ==> spec_next_step(keep_alive_if_empty, pending_len, inner, silence) != QueueStep::<
            T,
        >::Yield(None),
        keep_alive_if_empty && inner is None && pending_len == 0 ==> spec_next_step(
            keep_alive_if_empty,
            pending_len,
            inner,
            silence,
        ) == QueueStep::Yield(Some(silence)),
        spec_next_step(keep_alive_if_empty, pending_len, inner, silence) == QueueStep::<T>::Yield(None) <==> (
        !keep_alive_if_empty && inner is None && pending_len == 0),
        inner is Some ==> spec_next_step(keep_alive_if_empty, pending_len, inner, silence) == QueueStep::Yield(
            inner,
        ),
{
}

/// The output of a queue never reports an empty frame, and reports the frame
/// length of its current source when that one is not zero.
pub proof fn lemma_frame_len_positive(
    keep_alive_if_empty: bool,
    pending_len: nat,
    inner_frame_len: Option<usize>,
    inner_lower_bound: usize,
)
    ensures
        spec_frame_len(keep_alive_if_empty, pending_len, inner_frame_len, inner_lower_bound) > 0,
        inner_frame_len is Some && inner_frame_len->0 != 0 ==> spec_frame_len(
            keep_alive_if_empty,
            pending_len,
            inner_frame_len,
            inner_lower_bound,
        ) == inner_frame_len->0,        inner_frame_len == Some(0usize) && keep_alive_if_empty && pending_len == 0 ==> spec_frame_len(
            keep_alive_if_empty,
            pending_len,
            inner_frame_len,
            inner_lower_bound,
        ) == THRESHOLD,
        inner_frame_len == Some(0usize) && pending_len > 0 ==> spec_frame_len(
            keep_alive_if_empty,
            pending_len,
            inner_frame_len,
            inner_lower_bound,
        ) == (if inner_lower_bound > 0 {
            inner_lower_bound
        } else {
            THRESHOLD
        }),
        inner_frame_len is None ==> spec_frame_len(keep_alive_if_empty, pending_len, inner_frame_len, inner_lower_bound)
            == (if inner_lower_bound > 0 {
            inner_lower_bound
        } else {
            THRESHOLD
        }),
{
}

/// The plain view of a sources queue.
pub struct QueueView<Src> {
    /// The queue plays silence once no source is left.
    pub keep_alive_if_empty: bool,
    /// The source that plays now.
    pub current: Src,
    /// The sources queued after the current one, first to play first.
    pub pending: Seq<Src>,
}

impl<Src> QueueView<Src> {
    /// A new queue around its first source, with nothing queued after it.
    pub open spec fn initial(keep_alive_if_empty: bool, source: Src) -> Self {
        QueueView { keep_alive_if_empty, current: source, pending: Seq::empty() }
    }

    /// The queue with `source` added at its end.
    pub open spec fn appended(self, source: Src) -> Self {
        QueueView { pending: self.pending.push(source), ..self }
    }

    /// The queue with its keep-alive setting changed.
    pub open spec fn with_keep_alive(self, keep_alive_if_empty: bool) -> Self {
        QueueView { keep_alive_if_empty, ..self }
    }

    /// The queue with every source after the current one dropped.
    pub open spec fn pending_cleared(self) -> Self {
        QueueView { pending: Seq::empty(), ..self }
    }

    /// The queue with every source dropped and `source` playing now.
    pub open spec fn restarted_with(self, source: Src) -> Self {
        QueueView { current: source, pending: Seq::empty(), ..self }
    }

    /// The queue once its current source has run dry and the first queued
    /// source has taken its place.
    pub open spec fn advanced(self) -> Self {
        QueueView { current: self.pending[0], pending: self.pending.drop_first(), ..self }
    }
}

/// The state that the input and the output of a sources queue share: the
/// source that plays now, the sources queued after it in the order in which
/// they were added, and whether the queue plays silence once no source is
/// left.
pub struct SourcesQueue<Src> {
    keep_alive_if_empty: bool,
    current: Src,
    pending: Vec<Src>,
}

impl<Src> View for SourcesQueue<Src> {
    type V = QueueView<Src>;

    closed spec fn view(&self) -> QueueView<Src> {
        QueueView { keep_alive_if_empty: self.keep_alive_if_empty, current: self.current, pending: self.pending@ }
    }
}

impl<Src> SourcesQueue<Src> {
    /// Builds a new queue around its first source.
    ///
    /// With `keep_alive_if_empty` the queue is infinite: it plays silence until
    /// a new sound is added. Without it, the queue reports that it has finished
    /// once its last source has.
    pub fn new(keep_alive_if_empty: bool, initial_source: Src) -> (queue: Self)
        ensures
            queue@ == QueueView::initial(keep_alive_if_empty, initial_source),
            queue@.keep_alive_if_empty == keep_alive_if_empty,
            queue@.current == initial_source,
            queue@.pending.len() == 0,
    {
        SourcesQueue { keep_alive_if_empty, current: initial_source, pending: Vec::new() }
    }

    /// Adds a new source to the end of the queue: it plays once the current
    /// source and all those queued before it have finished.
    pub fn set_source(&mut self, source: Src)
        ensures
            final(self)@ == old(self)@.appended(source),
            final(self)@.pending.len() == old(self)@.pending.len() + 1,
            forall|k: int| 0 <= k < old(self)@.pending.len() ==> #[trigger] final(self)@.pending[k] == old(self)@.pending[k],
            final(self)@.pending[old(self)@.pending.len() as int] == source,
            final(self)@.current == old(self)@.current,
            final(self)@.keep_alive_if_empty == old(self)@.keep_alive_if_empty,
    {
        self.pending.push(source);
    }

    /// Drops every source queued after the current one.
    pub fn clear_pending(&mut self)
        ensures
            final(self)@ == old(self)@.pending_cleared(),
            final(self)@.pending.len() == 0,
            final(self)@.current == old(self)@.current,
            final(self)@.keep_alive_if_empty == old(self)@.keep_alive_if_empty,
    {
        self.pending = Vec::new();
    }

    /// Drops every source, the current one too, and plays `source` now.
    pub fn restart_with(&mut self, source: Src)
        ensures
            final(self)@ == old(self)@.restarted_with(source),
            final(self)@.pending.len() == 0,
            final(self)@.current == source,
            final(self)@.keep_alive_if_empty == old(self)@.keep_alive_if_empty,
    {
        self.current = source;
        self.pending = Vec::new();
    }

    /// Sets whether the queue stays alive if there's no more sound to play.
    pub fn set_keep_alive_if_empty(&mut self, keep_alive_if_empty: bool)
        ensures
            final(self)@ == old(self)@.with_keep_alive(keep_alive_if_empty),
            final(self)@.keep_alive_if_empty == keep_alive_if_empty,
            final(self)@.current == old(self)@.current,
            final(self)@.pending == old(self)@.pending,
    {
        self.keep_alive_if_empty = keep_alive_if_empty;
    }

    /// Whether the queue stays alive if there's no more sound to play.
    pub fn keep_alive_if_empty(&self) -> (keep_alive: bool)
        ensures
            keep_alive == self@.keep_alive_if_empty,
    {
        self.keep_alive_if_empty
    }

    /// Number of sources queued after the current one.
    pub fn pending_len(&self) -> (len: usize)
        ensures
            len == self@.pending.len(),
    {
        self.pending.len()
    }

    /// The source that plays now.
    pub fn current(&self) -> (current: &Src)
        ensures
            *current == self@.current,
    {
        &self.current
    }

    /// The source that plays now, to be advanced in place.
    pub fn current_mut(&mut self) -> (current: &mut Src)
        ensures
            *current == old(self)@.current,
            final(self)@ == (QueueView { current: *final(current), ..old(self)@ }),
    {
        &mut self.current
    }

    /// The frame length that the output reports.
    ///
    /// The boundary between two sounds in the queue is a frame boundary too, so
    /// a non-zero frame length of the current source is reported as it is. A
    /// zero one means that the source is done: with keep-alive and no source
    /// queued, a filler silence of `THRESHOLD` samples comes next. Otherwise
    /// the lower bound of the size hint is used, unless it is zero, in which
    /// case frames are cut at `THRESHOLD` samples.
    pub fn current_frame_len(&self, inner_frame_len: Option<usize>, inner_lower_bound: usize) -> (len: Option<usize>)
        ensures
            len == Some(
                spec_frame_len(self@.keep_alive_if_empty, self@.pending.len(), inner_frame_len, inner_lower_bound),
            ),
            inner_frame_len is Some && inner_frame_len->0 != 0 ==> len == inner_frame_len,
            inner_frame_len == Some(0usize) && self@.keep_alive_if_empty && self@.pending.len() == 0 ==> len == Some(
                THRESHOLD,
            ),
            !(inner_frame_len is Some && (inner_frame_len->0 != 0 || (self@.keep_alive_if_empty
                && self@.pending.len() == 0))) ==> len == Some(
                if inner_lower_bound > 0 {
                    inner_lower_bound
                } else {
                    THRESHOLD
                },
            ),
    {
        if let Some(val) = inner_frame_len {
            if val != 0 {
                return Some(val);
            } else if self.keep_alive_if_empty && self.pending.len() == 0 {
                return Some(THRESHOLD);
            }
        }
        if inner_lower_bound > 0 {
            Some(inner_lower_bound)
        } else {
            Some(THRESHOLD)
        }
    }

    /// One step of the output, given `inner`, what the current source yielded.
    ///
    /// A sample is passed on. A source that ran dry is dropped and the first
    /// queued source becomes the current one; the output then asks it for its
    /// sample. With no source queued, the current one stays, and the output
    /// yields `silence` while the queue is kept alive, and else finishes.
    pub fn next_sample<T>(&mut self, inner: Option<T>, silence: T) -> (step: QueueStep<T>)
        ensures
            step == spec_next_step(old(self)@.keep_alive_if_empty, old(self)@.pending.len(), inner, silence),
            step is Advance ==> final(self)@ == old(self)@.advanced(),
            !(step is Advance) ==> final(self)@ == old(self)@,
            inner is Some ==> step == QueueStep::Yield(inner) && final(self)@ == old(self)@,
            inner is None && old(self)@.pending.len() > 0 ==> {
                &&& step is Advance
                &&& final(self)@.current == old(self)@.pending[0]
                &&& final(self)@.pending == old(self)@.pending.subrange(1, old(self)@.pending.len() as int)
                &&& final(self)@.keep_alive_if_empty == old(self)@.keep_alive_if_empty
            },
            inner is None && old(self)@.pending.len() == 0 && old(self)@.keep_alive_if_empty ==> step
                == QueueStep::Yield(Some(silence)) && final(self)@ == old(self)@,
            inner is None && old(self)@.pending.len() == 0 && !old(self)@.keep_alive_if_empty ==> step
                == QueueStep::<T>::Yield(None) && final(self)@ == old(self)@,
    {
        match inner {
            Some(sample) => QueueStep::Yield(Some(sample)),
            None => if self.pending.len() > 0 {
                let next = self.pending.remove(0);
                self.current = next;
                assert(self.pending@ =~= old(self)@.pending.drop_first());
                QueueStep::Advance
            } else if self.keep_alive_if_empty {
                QueueStep::Yield(Some(silence))
            } else {
                QueueStep::Yield(None)
            },
        }
    }
}

} // verus!
