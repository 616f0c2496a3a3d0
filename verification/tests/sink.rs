use bevy_mod_dynamicaudio::queue::{QueueStep, SourcesQueue};
use bevy_mod_dynamicaudio::sink::{
    new_sink_queue, release_sink, set_sink_source, stop_sink, SinkControls, TickActions,
};

type Queue = SourcesQueue<std::vec::IntoIter<i16>>;

fn samples(v: &[i16]) -> std::vec::IntoIter<i16> {
    v.to_vec().into_iter()
}

/// Plays the queue to its end, as the output of a sink does, honouring a stop
/// that the control callback passes on to the current sound.
fn play(controls: &mut SinkControls, queue: &mut Queue) -> Vec<i16> {
    let mut out = Vec::new();
    loop {
        if controls.tick().stop {
            // a stopped sound yields nothing more
            *queue.current_mut() = Vec::new().into_iter();
        }
        let inner = queue.current_mut().next();
        match queue.next_sample(inner, 0) {
            QueueStep::Yield(Some(s)) => out.push(s),
            QueueStep::Yield(None) => return out,
            QueueStep::Advance => {}
        }
    }
}

#[test]
fn new_controls_play_and_do_not_skip() {
    let mut controls = SinkControls::new();
    assert!(!controls.is_paused());
    assert!(!controls.is_stopped());
    assert_eq!(controls.pending_clears(), 0);
    assert_eq!(controls.tick(), TickActions { stop: false, skip: false, paused: false });
    assert_eq!(controls.pending_clears(), 0);
}

#[test]
fn pause_then_play_resumes() {
    let mut controls = SinkControls::new();
    controls.pause();
    assert!(controls.is_paused());
    controls.pause();
    assert!(controls.is_paused());
    assert!(controls.tick().paused);
    controls.play();
    assert!(!controls.is_paused());
    controls.play();
    assert!(!controls.is_paused());
    assert!(!controls.tick().paused);
}

#[test]
fn new_sink_queue_finishes_with_its_last_sound() {
    let mut controls = SinkControls::new();
    let mut queue = new_sink_queue(samples(&[1, 2]));
    assert!(!queue.keep_alive_if_empty());
    assert_eq!(queue.pending_len(), 0);
    assert_eq!(play(&mut controls, &mut queue), vec![1, 2]);
}

#[test]
fn sounds_added_to_a_playing_sink_are_appended() {
    let mut controls = SinkControls::new();
    let mut queue = new_sink_queue(samples(&[1, 2]));
    set_sink_source(&mut controls, &mut queue, samples(&[3]));
    assert_eq!(queue.pending_len(), 1);
    assert!(!controls.is_stopped());
    assert_eq!(play(&mut controls, &mut queue), vec![1, 2, 3]);
}

#[test]
fn stop_empties_the_queue_and_stops_the_sound() {
    let mut controls = SinkControls::new();
    let mut queue = new_sink_queue(samples(&[1, 2]));
    set_sink_source(&mut controls, &mut queue, samples(&[3]));
    stop_sink(&mut controls, &mut queue);
    assert!(controls.is_stopped());
    assert_eq!(queue.pending_len(), 0);
    assert_eq!(controls.tick(), TickActions { stop: true, skip: false, paused: false });
    assert!(controls.is_stopped());
}

#[test]
fn sound_added_after_stop_plays_alone() {
    let mut controls = SinkControls::new();
    let mut queue = new_sink_queue(samples(&[1, 2]));
    stop_sink(&mut controls, &mut queue);
    set_sink_source(&mut controls, &mut queue, samples(&[9]));
    assert!(!controls.is_stopped());
    assert_eq!(queue.pending_len(), 0);
    assert_eq!(play(&mut controls, &mut queue), vec![9]);
}

#[test]
fn dropping_sink_stops_unless_detached() {
    let mut controls = SinkControls::new();
    let mut queue = new_sink_queue(samples(&[1]));
    controls.pause();
    set_sink_source(&mut controls, &mut queue, samples(&[2]));
    release_sink(&mut controls, &mut queue, false);
    assert!(controls.is_stopped());
    assert!(controls.is_paused());
    assert_eq!(queue.pending_len(), 0);
    assert!(!queue.keep_alive_if_empty());

    let mut controls = SinkControls::new();
    let mut queue = SourcesQueue::new(true, samples(&[1]));
    set_sink_source(&mut controls, &mut queue, samples(&[2]));
    release_sink(&mut controls, &mut queue, true);
    assert!(!controls.is_stopped());
    assert!(!queue.keep_alive_if_empty());
    assert_eq!(play(&mut controls, &mut queue), vec![1, 2]);
}
