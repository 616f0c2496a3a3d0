use bevy_mod_dynamicaudio::queue::{QueueStep, SourcesQueue, THRESHOLD};

/// Drives the output of a queue whose sources are iterators over samples, as
/// the audio thread does, for at most `limit` samples.
fn play(queue: &mut SourcesQueue<std::vec::IntoIter<i16>>, limit: usize) -> Vec<Option<i16>> {
    let mut out = Vec::new();
    while out.len() < limit {
        let inner = queue.current_mut().next();
        match queue.next_sample(inner, 0) {
            QueueStep::Yield(sample) => {
                out.push(sample);
                if sample.is_none() {
                    break;
                }
            }
            QueueStep::Advance => {}
        }
    }
    out
}

#[test]
fn added_sources_play_one_after_the_other() {
    let mut queue = SourcesQueue::new(false, vec![1i16, 2].into_iter());
    queue.set_source(vec![3i16].into_iter());
    queue.set_source(vec![4i16, 5].into_iter());
    assert_eq!(queue.pending_len(), 2);
    assert_eq!(
        play(&mut queue, 10),
        vec![Some(1), Some(2), Some(3), Some(4), Some(5), None]
    );
    assert_eq!(queue.pending_len(), 0);
}

#[test]
fn source_added_while_playing_is_appended() {
    let mut queue = SourcesQueue::new(false, vec![1i16, 2].into_iter());
    assert_eq!(play(&mut queue, 1), vec![Some(1)]);
    queue.set_source(vec![3i16].into_iter());
    assert_eq!(play(&mut queue, 10), vec![Some(2), Some(3), None]);
}

#[test]
fn kept_alive_queue_plays_silence_then_new_sources() {
    let mut queue = SourcesQueue::new(true, vec![1i16].into_iter());
    assert_eq!(play(&mut queue, 3), vec![Some(1), Some(0), Some(0)]);
    queue.set_source(vec![7i16].into_iter());
    assert_eq!(play(&mut queue, 2), vec![Some(7), Some(0)]);
}

#[test]
fn keep_alive_flag_is_stored() {
    let mut queue = SourcesQueue::new(true, 0u8);
    assert!(queue.keep_alive_if_empty());
    queue.set_keep_alive_if_empty(false);
    assert!(!queue.keep_alive_if_empty());
    assert_eq!(*queue.current(), 0);
}

#[test]
fn next_sample_steps() {
    let mut queue = SourcesQueue::new(false, 1u8);
    assert!(matches!(queue.next_sample(Some(7i16), 0), QueueStep::Yield(Some(7))));
    assert!(matches!(queue.next_sample(None::<i16>, 0), QueueStep::Yield(None)));
    queue.set_source(2u8);
    assert!(matches!(queue.next_sample(None::<i16>, 0), QueueStep::Advance));
    assert_eq!(*queue.current(), 2);
    assert_eq!(queue.pending_len(), 0);
    queue.set_keep_alive_if_empty(true);
    assert!(matches!(queue.next_sample(None::<i16>, 9), QueueStep::Yield(Some(9))));
    assert_eq!(*queue.current(), 2);
}

#[test]
fn frame_len_of_current_source_is_kept() {
    let queue = SourcesQueue::new(false, ());
    assert_eq!(queue.current_frame_len(Some(100), 5), Some(100));
    let queue = SourcesQueue::new(true, ());
    assert_eq!(queue.current_frame_len(Some(100), 5), Some(100));
}

#[test]
fn finished_source_frame_len_is_threshold_when_kept_alive_and_nothing_queued() {
    let mut queue = SourcesQueue::new(true, ());
    assert_eq!(queue.current_frame_len(Some(0), 40), Some(THRESHOLD));
    assert_eq!(THRESHOLD, 512);
    queue.set_source(());
    assert_eq!(queue.current_frame_len(Some(0), 40), Some(40));
}

#[test]
fn frame_len_falls_back_on_size_hint() {
    let queue = SourcesQueue::new(false, ());
    assert_eq!(queue.current_frame_len(Some(0), 40), Some(40));
    assert_eq!(queue.current_frame_len(None, 40), Some(40));
    let queue = SourcesQueue::new(true, ());
    assert_eq!(queue.current_frame_len(None, 40), Some(40));
}

#[test]
fn frame_len_without_any_hint_is_threshold() {
    let queue = SourcesQueue::new(false, ());
    assert_eq!(queue.current_frame_len(None, 0), Some(512));
    assert_eq!(queue.current_frame_len(Some(0), 0), Some(512));
}

#[test]
fn clear_and_restart() {
    let mut queue = SourcesQueue::new(false, vec![1i16].into_iter());
    queue.set_source(vec![2i16].into_iter());
    queue.clear_pending();
    assert_eq!(queue.pending_len(), 0);
    assert_eq!(play(&mut queue, 10), vec![Some(1), None]);
    queue.set_source(vec![3i16].into_iter());
    queue.restart_with(vec![4i16].into_iter());
    assert_eq!(queue.pending_len(), 0);
    assert_eq!(play(&mut queue, 10), vec![Some(4), None]);
}
