//! Control state of a sink, and what its periodic control callback does.
use vstd::prelude::*;

use crate::queue::{QueueView, SourcesQueue};

verus! {

/// The plain view of the control state of a sink.
pub struct ControlsView {
    /// Playback is paused.
    pub paused: bool,
    /// The sink was asked to stop its sound.
    pub stopped: bool,
    /// Number of sounds still to be skipped.
    pub to_clear: nat,
}

/// What the periodic control callback does to the sound being played.
#[derive(Clone, Copy, Debug, PartialEq, Eq, Structural)]
pub struct TickActions {
    /// Stop the sound.
    pub stop: bool,
    /// Skip the current sound.
    pub skip: bool,
    /// Whether the sound is to be held paused.
    pub paused: bool,
}

impl ControlsView {
    /// The controls of a new sink: playing, not stopped, nothing to skip.
    pub open spec fn initial() -> Self {
        ControlsView { paused: false, stopped: false, to_clear: 0 }
    }

    /// The controls once paused (`true`) or resumed (`false`).
    pub open spec fn with_paused(self, paused: bool) -> Self {
        ControlsView { paused, ..self }
    }

    /// The controls once the sink has been asked to stop.
    pub open spec fn stopped(self) -> Self {
        ControlsView { stopped: true, ..self }
    }

    /// The controls once a new sound has been handed to the sink: a stopped
    /// sink plays again.
    pub open spec fn source_set(self) -> Self {
        ControlsView { stopped: false, ..self }
    }

    /// The controls once the sink handle is gone: the sound stops unless the
    /// sink was detached.
    pub open spec fn released(self, detached: bool) -> Self {
        if detached {
            self
        } else {
            self.stopped()
        }
    }

    /// What one run of the control callback does to the sound.
    pub open spec fn tick_actions(self) -> TickActions {
        TickActions { stop: self.stopped, skip: self.to_clear > 0, paused: self.paused }
    }

    /// The controls after one run of the control callback: one pending skip
    /// is used up.
    pub open spec fn ticked(self) -> Self {
        ControlsView { to_clear: if self.to_clear > 0 { (self.to_clear - 1) as nat } else { 0 }, ..self }
    }
}

/// The control state of a sink, shared between the handle that the user holds
/// and the callback that runs on the playing sound.
pub struct SinkControls {
    pause: bool,
    stopped: bool,
    to_clear: u32,
}

impl View for SinkControls {
    type V = ControlsView;

    closed spec fn view(&self) -> ControlsView {
        ControlsView { paused: self.pause, stopped: self.stopped, to_clear: self.to_clear as nat }
    }
}

impl SinkControls {
    /// The controls of a new sink: playing, not stopped, nothing to skip.
    pub fn new() -> (controls: Self)
        ensures
            controls@ == ControlsView::initial(),
            !controls@.paused,
            !controls@.stopped,
            controls@.to_clear == 0,
    {
        SinkControls { pause: false, stopped: false, to_clear: 0 }
    }

    /// Resumes playback of a paused sink. No effect if not paused.
    pub fn play(&mut self)
        ensures
            final(self)@ == old(self)@.with_paused(false),
            !final(self)@.paused,
            final(self)@.stopped == old(self)@.stopped,
            final(self)@.to_clear == old(self)@.to_clear,
    {
        self.pause = false;
    }

    /// Pauses playback. No effect if already paused. A paused sink can be
    /// resumed with `play()`.
    pub fn pause(&mut self)
        ensures
            final(self)@ == old(self)@.with_paused(true),
            final(self)@.paused,
            final(self)@.stopped == old(self)@.stopped,
            final(self)@.to_clear == old(self)@.to_clear,
    {
        self.pause = true;
    }

    /// Whether the sink is paused.
    pub fn is_paused(&self) -> (paused: bool)
        ensures
            paused == self@.paused,
    {
        self.pause
    }

    /// Asks the sink to stop its sound.
    fn stop(&mut self)
        ensures
            final(self)@ == old(self)@.stopped(),
    {
        self.stopped = true;
    }

    /// Whether the sink was asked to stop.
    pub fn is_stopped(&self) -> (stopped: bool)
        ensures
            stopped == self@.stopped,
    {
        self.stopped
    }

    /// Number of sounds still to be skipped.
    pub fn pending_clears(&self) -> (to_clear: u32)
        ensures
            to_clear == self@.to_clear,
    {
        self.to_clear
    }

    /// Records that a new sound was handed to the sink: a stopped sink plays
    /// again.
    fn source_set(&mut self)
        ensures
            final(self)@ == old(self)@.source_set(),
    {
        if self.stopped {
            self.stopped = false;
        }
    }

    /// Records that the sink handle is gone. Dropping a sink stops its sound;
    /// a detached sink lets it play on.
    fn release(&mut self, detached: bool)
        ensures
            final(self)@ == old(self)@.released(detached),
    {
        if !detached {
            self.stopped = true;
        }
    }

    /// One run of the periodic control callback: the sound is stopped if the
    /// sink was stopped, one pending skip is used up, and the sound is held
    /// paused as the sink is.
    pub fn tick(&mut self) -> (actions: TickActions)
        ensures
            actions == old(self)@.tick_actions(),
            final(self)@ == old(self)@.ticked(),
            actions.stop == old(self)@.stopped,
            actions.skip == (old(self)@.to_clear > 0),
            actions.paused == old(self)@.paused,
            final(self)@.paused == old(self)@.paused,
            final(self)@.stopped == old(self)@.stopped,
            old(self)@.to_clear > 0 ==> final(self)@.to_clear == old(self)@.to_clear - 1,
            old(self)@.to_clear == 0 ==> final(self)@.to_clear == 0,
    {
        let stop = self.stopped;
        let skip = self.to_clear > 0;
        if skip {
            self.to_clear = self.to_clear - 1;
        }
        TickActions { stop, skip, paused: self.pause }
    }
}

/// The controls and the queue of a sink once it has been asked to stop: the
/// stop flag is set and every sound queued after the current one is dropped;
/// the current one is stopped at the next run of the control callback.
pub open spec fn spec_sink_stopped<Src>(controls: ControlsView, queue: QueueView<Src>) -> (ControlsView, QueueView<Src>) {
    (controls.stopped(), queue.pending_cleared())
}

/// The controls and the queue of a sink once it has been handed `source`: a
/// sink that plays adds the sound at the end of its queue; a stopped sink
/// drops every sound it still holds, plays the new one, and is no longer
/// stopped.
pub open spec fn spec_sink_source_set<Src>(controls: ControlsView, queue: QueueView<Src>, source: Src) -> (ControlsView, QueueView<Src>) {
    (
        controls.source_set(),
        if controls.stopped {
            queue.restarted_with(source)
        } else {
            queue.appended(source)
        },
    )
}

/// The controls and the queue of a sink once its handle is gone: the queue no
/// longer waits for new sounds; unless the sink was detached, it is stopped
/// as by `stop`.
pub open spec fn spec_sink_released<Src>(controls: ControlsView, queue: QueueView<Src>, detached: bool) -> (ControlsView, QueueView<Src>) {
    if detached {
        (controls, queue.with_keep_alive(false))
    } else {
        (controls.stopped(), queue.pending_cleared().with_keep_alive(false))
    }
}

/// The queue of a new sink: it plays `source` and finishes with its last sound.
pub fn new_sink_queue<Src>(source: Src) -> (queue: SourcesQueue<Src>)
    ensures
        queue@ == QueueView::initial(false, source),
        !queue@.keep_alive_if_empty,
        queue@.current == source,
        queue@.pending.len() == 0,
{
    SourcesQueue::new(false, source)
}

/// Stops the sink whose controls and queue these are, by emptying its queue.
pub fn stop_sink<Src>(controls: &mut SinkControls, queue: &mut SourcesQueue<Src>)
    ensures
        (final(controls)@, final(queue)@) == spec_sink_stopped(old(controls)@, old(queue)@),
        final(controls)@.stopped,
        final(controls)@.paused == old(controls)@.paused,
        final(controls)@.to_clear == old(controls)@.to_clear,
        final(queue)@.pending.len() == 0,
        final(queue)@.current == old(queue)@.current,
        final(queue)@.keep_alive_if_empty == old(queue)@.keep_alive_if_empty,
{
    controls.stop();
    queue.clear_pending();
}

/// Hands a new sound to the sink whose controls and queue these are: it is
/// added at the end of the queue, or, if the sink was stopped, it replaces
/// everything the queue still holds.
pub fn set_sink_source<Src>(controls: &mut SinkControls, queue: &mut SourcesQueue<Src>, source: Src)
    ensures
        (final(controls)@, final(queue)@) == spec_sink_source_set(old(controls)@, old(queue)@, source),
        !final(controls)@.stopped,
        final(controls)@.paused == old(controls)@.paused,
        final(controls)@.to_clear == old(controls)@.to_clear,
        final(queue)@.keep_alive_if_empty == old(queue)@.keep_alive_if_empty,
        old(controls)@.stopped ==> final(queue)@.current == source && final(queue)@.pending.len() == 0,
        !old(controls)@.stopped ==> {
            &&& final(queue)@.current == old(queue)@.current
            &&& final(queue)@.pending == old(queue)@.pending.push(source)
        },
{
    if controls.is_stopped() {
        queue.restart_with(source);
    } else {
        queue.set_source(source);
    }
    controls.source_set();
}

/// Records that the handle of the sink whose controls and queue these are is
/// gone. Dropping a sink stops all its sounds; a detached sink lets them play
/// on.
pub fn release_sink<Src>(controls: &mut SinkControls, queue: &mut SourcesQueue<Src>, detached: bool)
    ensures
        (final(controls)@, final(queue)@) == spec_sink_released(old(controls)@, old(queue)@, detached),
        !final(queue)@.keep_alive_if_empty,
        final(queue)@.current == old(queue)@.current,
        final(controls)@.paused == old(controls)@.paused,
        final(controls)@.to_clear == old(controls)@.to_clear,
        detached ==> final(controls)@.stopped == old(controls)@.stopped && final(queue)@.pending == old(queue)@.pending,
        !detached ==> final(controls)@.stopped && final(queue)@.pending.len() == 0,
{
    queue.set_keep_alive_if_empty(false);
    if !detached {
        queue.clear_pending();
    }
    controls.release(detached);
}

/// Stopping a sink empties its queue and stops its current sound at the next
/// run of the control callback; a sound handed to it afterwards is then the
/// only one it holds, and it plays.
pub proof fn lemma_stop_then_new_source<Src>(controls: ControlsView, queue: QueueView<Src>, source: Src)
    ensures
        ({
            let (stopped_controls, stopped_queue) = spec_sink_stopped(controls, queue);
            let (new_controls, new_queue) = spec_sink_source_set(stopped_controls, stopped_queue, source);
            &&& stopped_queue.pending.len() == 0
            &&& stopped_controls.tick_actions().stop
            &&& new_queue.current == source
            &&& new_queue.pending.len() == 0
            &&& !new_controls.stopped
            &&& !new_controls.tick_actions().stop
        }),
{
}

/// A sink that plays adds each new sound after those it already holds, and
/// its controls stay as they were.
pub proof fn lemma_new_source_appends<Src>(controls: ControlsView, queue: QueueView<Src>, source: Src)
    requires
        !controls.stopped,
    ensures
        spec_sink_source_set(controls, queue, source) == (controls, queue.appended(source)),
{
}

/// Dropping a sink stops its sound and empties its queue; detaching it first
/// lets every queued sound play on. Either way the queue no longer waits for
/// new sounds.
pub proof fn lemma_release<Src>(controls: ControlsView, queue: QueueView<Src>)
    ensures
        spec_sink_released(controls, queue, false) == spec_sink_stopped(controls, queue.with_keep_alive(false)),
        spec_sink_released(controls, queue, false).0.stopped,
        spec_sink_released(controls, queue, false).1.pending.len() == 0,
        spec_sink_released(controls, queue, true) == (controls, queue.with_keep_alive(false)),
        !spec_sink_released(controls, queue, true).1.keep_alive_if_empty,
        !spec_sink_released(controls, queue, false).1.keep_alive_if_empty,
{
    assert(queue.pending_cleared().with_keep_alive(false) == queue.with_keep_alive(false).pending_cleared());
}

/// Handing a sound to a sink never changes whether it is paused, nor its
/// pending skips, in the stopped case too; afterwards it is not stopped. A
/// sink that was stopped holds only the new sound; one that was not keeps
/// what it held and plays the new sound after it.
pub proof fn lemma_source_set_keeps_pause<Src>(controls: ControlsView, queue: QueueView<Src>, source: Src)
    ensures
        ({
            let (new_controls, new_queue) = spec_sink_source_set(controls, queue, source);
            &&& new_controls.paused == controls.paused
            &&& new_controls.to_clear == controls.to_clear
            &&& !new_controls.stopped
            &&& new_queue.keep_alive_if_empty == queue.keep_alive_if_empty
            &&& controls.stopped ==> new_queue.current == source && new_queue.pending.len() == 0
            &&& !controls.stopped ==> new_queue.current == queue.current && new_queue.pending == queue.pending.push(
                source,
            )
        }),
{
}

/// The control callback skips exactly when a clear is pending, whatever the
/// paused and stopped flags; it stops the sound exactly when the sink is
/// stopped, and holds it paused exactly when the sink is paused. It changes
/// neither flag.
pub proof fn lemma_tick_actions(controls: ControlsView)
    ensures
        controls.tick_actions().skip <==> controls.to_clear > 0,
        controls.tick_actions().stop <==> controls.stopped,
        controls.tick_actions().paused <==> controls.paused,
        controls.ticked().paused == controls.paused,
        controls.ticked().stopped == controls.stopped,
{
}

/// Pausing and resuming touch the paused flag alone; stopping touches the
/// stopped flag alone.
pub proof fn lemma_flags_independent(controls: ControlsView, paused: bool)
    ensures
        controls.with_paused(paused).paused == paused,
        controls.with_paused(paused).stopped == controls.stopped,
        controls.with_paused(paused).to_clear == controls.to_clear,
        controls.stopped().stopped,
        controls.stopped().paused == controls.paused,
        controls.stopped().to_clear == controls.to_clear,
        !ControlsView::initial().paused && !ControlsView::initial().stopped && ControlsView::initial().to_clear == 0,
{
}

/// Pausing a sink that is paused already changes nothing.
pub proof fn lemma_pause_idempotent(controls: ControlsView)
    ensures
        controls.paused ==> controls.with_paused(true) == controls,
        controls.with_paused(true).with_paused(true) == controls.with_paused(true),
{
}

/// Resuming a sink that is not paused changes nothing.
pub proof fn lemma_play_idempotent(controls: ControlsView)
    ensures
        !controls.paused ==> controls.with_paused(false) == controls,
        controls.with_paused(false).with_paused(false) == controls.with_paused(false),
{
}

/// A paused sink resumed with `play()` is no longer paused, and is as it was
/// before the pause apart from that.
pub proof fn lemma_pause_then_play(controls: ControlsView)
    ensures
        controls.with_paused(true).paused,
        !controls.with_paused(true).with_paused(false).paused,
        controls.with_paused(true).with_paused(false) == controls.with_paused(false),
{
}



/// The control callback never adds skips: pending skips only go down, one per
/// run, and a new sink never skips.
pub proof fn lemma_clears_decrease(controls: ControlsView)
    ensures
        controls.ticked().to_clear <= controls.to_clear,
        controls.to_clear > 0 ==> controls.ticked().to_clear == controls.to_clear - 1,
        !ControlsView::initial().tick_actions().skip,
{
}

} // verus!
