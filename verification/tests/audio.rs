use bevy_mod_dynamicaudio::audio::{
    listeners_need_update, plan_playback, route_output, PlaybackMarker, PlaybackMode, PlaybackPlan,
    ProcessorBuffers,
};

fn drain(buffers: &mut ProcessorBuffers<i32>) -> Vec<i32> {
    let mut out = Vec::new();
    while let Some(s) = buffers.take_sample() {
        out.push(s);
    }
    out
}

#[test]
fn new_buffers_are_silent() {
    let mut buffers = ProcessorBuffers::new(2, 3, 0i32);
    assert_eq!(buffers.channels(), 2);
    assert_eq!(buffers.frames(), 3);
    assert_eq!(buffers.input(), &vec![vec![0, 0, 0], vec![0, 0, 0]]);
    assert_eq!(drain(&mut buffers), vec![0; 6]);
}

#[test]
fn load_input_deinterleaves_and_fills_gaps() {
    let mut buffers = ProcessorBuffers::new(2, 3, 0i32);
    let pulled = vec![Some(1), Some(2), Some(3), Some(4), Some(5), None];
    buffers.load_input(&pulled, -1);
    assert_eq!(buffers.input(), &vec![vec![1, 3, 5], vec![2, 4, -1]]);
}

#[test]
fn output_is_read_back_interleaved() {
    let mut buffers = ProcessorBuffers::new(2, 3, 0i32);
    let previous = buffers.replace_output(vec![vec![10, 30, 50], vec![20, 40, 60]]);
    assert_eq!(previous, vec![vec![0, 0, 0], vec![0, 0, 0]]);
    assert_eq!(drain(&mut buffers), vec![10, 20, 30, 40, 50, 60]);
    // once drained the cursor starts over
    assert_eq!(buffers.take_sample(), Some(10));
}

#[test]
fn identity_processing_gives_back_the_stream() {
    let mut buffers = ProcessorBuffers::new(3, 2, 0i32);
    let pulled: Vec<Option<i32>> = (1..=6).map(Some).collect();
    buffers.load_input(&pulled, 0);
    let input = buffers.input().clone();
    buffers.replace_output(input);
    assert_eq!(drain(&mut buffers), vec![1, 2, 3, 4, 5, 6]);
}

#[test]
fn stream_continues_across_refills() {
    // as an output call does: take, and when the block is used up, refill and take again
    let mut buffers = ProcessorBuffers::new(2, 2, 0i32);
    let mut block = 0;
    let mut out = Vec::new();
    buffers.replace_output(vec![vec![0, 2], vec![1, 3]]);
    for _ in 0..8 {
        let sample = match buffers.take_sample() {
            Some(s) => s,
            None => {
                block += 1;
                let base = 4 * block;
                buffers.replace_output(vec![vec![base, base + 2], vec![base + 1, base + 3]]);
                buffers.take_sample().unwrap()
            }
        };
        out.push(sample);
    }
    assert_eq!(out, vec![0, 1, 2, 3, 4, 5, 6, 7]);
}

#[test]
fn single_channel_reads_in_order() {
    let mut buffers = ProcessorBuffers::new(1, 4, 0u8);
    buffers.replace_output(vec![vec![4, 3, 2, 1]]);
    assert_eq!(buffers.take_sample(), Some(4));
    assert_eq!(buffers.take_sample(), Some(3));
    assert_eq!(buffers.take_sample(), Some(2));
    assert_eq!(buffers.take_sample(), Some(1));
    assert_eq!(buffers.take_sample(), None);
    assert_eq!(buffers.take_sample(), Some(4));
}

#[test]
fn looping_sound_repeats_without_marker() {
    let plan = plan_playback(PlaybackMode::Loop, false, false, 0, false);
    assert_eq!(
        plan,
        PlaybackPlan {
            repeat: true,
            marker: None,
            spatial: false,
            warn_multiple_listeners: false,
            warn_missing_emitter: false,
            start_paused: false,
        }
    );
}

#[test]
fn once_modes_mark_their_entities() {
    assert_eq!(plan_playback(PlaybackMode::Once, false, true, 0, true).marker, None);
    assert!(plan_playback(PlaybackMode::Once, false, true, 0, true).start_paused);
    assert_eq!(
        plan_playback(PlaybackMode::Despawn, false, false, 0, true).marker,
        Some(PlaybackMarker::Despawn)
    );
    assert_eq!(
        plan_playback(PlaybackMode::Remove, false, false, 0, true).marker,
        Some(PlaybackMarker::Remove)
    );
    assert!(!plan_playback(PlaybackMode::Remove, false, false, 0, true).repeat);
}

#[test]
fn spatial_sound_warnings() {
    let plan = plan_playback(PlaybackMode::Once, true, false, 2, false);
    assert!(plan.spatial);
    assert!(plan.warn_multiple_listeners);
    assert!(plan.warn_missing_emitter);
    let plan = plan_playback(PlaybackMode::Once, true, false, 1, true);
    assert!(!plan.warn_multiple_listeners);
    assert!(!plan.warn_missing_emitter);
    let plan = plan_playback(PlaybackMode::Once, false, false, 5, false);
    assert!(!plan.warn_multiple_listeners);
    assert!(!plan.warn_missing_emitter);
}

#[test]
fn output_goes_to_target_mixer_or_global() {
    assert_eq!(route_output(Some("mixer"), 7u8), Ok("mixer"));
    assert_eq!(route_output(None::<&str>, 7u8), Err(7u8));
}

#[test]
fn listener_update_only_on_change() {
    assert!(!listeners_need_update(false, false));
    assert!(listeners_need_update(true, false));
    assert!(listeners_need_update(false, true));
    assert!(listeners_need_update(true, true));
}
