use pulsar_backend::{AudioCallback, CallbackSlot};

struct Constant(f32);

impl AudioCallback<f32, f32> for Constant {
    fn process(&mut self, output: &mut [f32], _sample_rate: f32, _channels: usize, _frames: usize) {
        for s in output.iter_mut() {
            *s = self.0;
        }
    }
}

#[test]
fn runs_processor_when_free() {
    let slot = CallbackSlot::new(Constant(0.5), 48000.0f32, 2, 0.0f32);
    let mut out = [0.0f32; 8];
    assert!(slot.process_realtime(&mut out));
    assert_eq!(out, [0.5; 8]);
    assert_eq!(slot.frame_count(), 4);
}

#[test]
fn writes_zeros_while_processor_is_held() {
    let slot = CallbackSlot::new(Constant(0.5), 48000.0f32, 2, 0.0f32);
    let handle = slot.processor_handle();
    let guard = handle.lock();
    let mut out = [0.25f32; 8];
    assert!(!slot.process_realtime(&mut out));
    assert_eq!(out, [0.0; 8]);
    assert_eq!(slot.frame_count(), 4);
    drop(guard);
    assert!(slot.process_realtime(&mut out));
    assert_eq!(out, [0.5; 8]);
    assert_eq!(slot.frame_count(), 8);
}

#[test]
fn short_buffer_is_left_alone() {
    let slot = CallbackSlot::new(Constant(0.5), 48000.0f32, 4, 0.0f32);
    let mut out = [0.3f32; 3];
    assert!(!slot.process_realtime(&mut out));
    assert_eq!(out, [0.3; 3]);
    assert_eq!(slot.frame_count(), 0);
}

#[test]
fn swap_replaces_processor() {
    let slot = CallbackSlot::new(Constant(0.5), 48000.0f32, 1, 0.0f32);
    slot.swap_processor(Constant(-0.5));
    let mut out = [0.0f32; 3];
    assert!(slot.process_realtime(&mut out));
    assert_eq!(out, [-0.5; 3]);
    assert_eq!(slot.frame_count(), 3);
}

#[test]
fn silent_slot_writes_zeros_and_counts_frames() {
    let mut slot = CallbackSlot::silent(48000.0f32, 2, 0.0f32);
    let mut out = [0.4f32; 6];
    assert!(slot.process_realtime(&mut out));
    assert_eq!(out, [0.0; 6]);
    assert_eq!(slot.frame_count(), 3);
    slot.set_runtime_config(96000.0, 3);
    assert_eq!(slot.sample_rate(), 96000.0);
    let mut out = [0.4f32; 6];
    assert!(slot.process_realtime(&mut out));
    assert_eq!(slot.frame_count(), 5);
}

struct Recorder {
    seen: Option<(f32, usize, usize)>,
}

impl AudioCallback<f32, f32> for Recorder {
    fn process(&mut self, output: &mut [f32], sample_rate: f32, channels: usize, frames: usize) {
        self.seen = Some((sample_rate, channels, frames));
        output[0] = 1.0;
    }
}

#[test]
fn processor_gets_rate_channels_and_frames() {
    let slot = CallbackSlot::new(Recorder { seen: None }, 44100.0f32, 3, 0.0f32);
    let mut out = [0.0f32; 13];
    assert!(slot.process_realtime(&mut out));
    assert_eq!(out[0], 1.0);
    assert_eq!(slot.processor_handle().lock().seen, Some((44100.0, 3, 4)));
}
