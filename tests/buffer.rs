use pulsar_backend::{bus_count, bus_for, deinterleave, fill_silence, frames_in, interleave};

#[test]
fn interleave_writes_frame_by_frame() {
    // Two channels, stride 4, three frames used.
    let planar = [1, 2, 3, 0, 10, 20, 30, 0];
    let mut out = [9; 8];
    interleave(&planar, 4, 2, 3, &mut out);
    assert_eq!(out, [1, 10, 2, 20, 3, 30, 9, 9]);
}

#[test]
fn deinterleave_splits_channels() {
    let interleaved = [1, 10, 100, 2, 20, 200];
    let mut planar = [0; 9];
    deinterleave(&interleaved, 3, 2, 3, &mut planar);
    assert_eq!(planar, [1, 2, 0, 10, 20, 0, 100, 200, 0]);
}

#[test]
fn deinterleave_then_interleave_round_trips() {
    let interleaved: Vec<u32> = (0..24).collect();
    let mut planar = vec![0u32; 4 * 8];
    deinterleave(&interleaved, 4, 6, 8, &mut planar);
    let mut back = vec![0u32; 24];
    interleave(&planar, 8, 4, 6, &mut back);
    assert_eq!(back, interleaved);
}

#[test]
fn silence_fills_everything() {
    let mut out = [0.5f32, -0.25, 1.0, 3.0];
    fill_silence(&mut out, 0.0);
    assert_eq!(out, [0.0; 4]);
}

#[test]
fn silent_source_mixes_to_eight_zeros() {
    // A source that renders silence into two channel buffers of four frames,
    // written out interleaved.
    let mut planar = [1.0f32; 8];
    fill_silence(&mut planar, 0.0);
    let mut out = [0.7f32; 8];
    interleave(&planar, 4, 2, 4, &mut out);
    assert_eq!(out, [0.0f32; 8]);
}

#[test]
fn frames_round_down() {
    assert_eq!(frames_in(8, 2), 4);
    assert_eq!(frames_in(9, 2), 4);
    assert_eq!(frames_in(1, 2), 0);
    assert_eq!(frames_in(0, 3), 0);
}

#[test]
fn bus_index_is_clamped_to_last_bus() {
    assert_eq!(bus_for(0, 4), 0);
    assert_eq!(bus_for(3, 4), 3);
    assert_eq!(bus_for(4, 4), 3);
    assert_eq!(bus_for(usize::MAX, 4), 3);
    assert_eq!(bus_for(7, 1), 0);
}

#[test]
fn at_least_one_bus() {
    assert_eq!(bus_count(0), 1);
    assert_eq!(bus_count(1), 1);
    assert_eq!(bus_count(4), 4);
}
