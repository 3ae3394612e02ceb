use audio_relay::audio::{
    capture_block, capture_block_u8, capture_into, playback_block, playback_block_u8,
    playback_from, Handoff,
};
use audio_relay::sample::SILENCE;
use audio_relay::sample_ring_buffer::{Buffer, BufferHandle};
use dasp_sample::Sample;

fn held(handle: &BufferHandle) -> Vec<u8> {
    let mut ring = handle.lock().unwrap();
    let mut out = Vec::new();
    while let Some(sample) = ring.pop() {
        out.push(sample);
    }
    out
}

#[test]
fn silence_is_the_middle_of_the_range() {
    assert_eq!(SILENCE, 128);
    assert_eq!(SILENCE, <u8 as Sample>::EQUILIBRIUM);
}

#[test]
fn capture_pushes_the_block_in_order() {
    let sink = Buffer::new_handle(8);
    assert_eq!(capture_block_u8(&sink, &[1, 2, 3]), Handoff::Moved(3));
    assert_eq!(capture_block_u8(&sink, &[4, 5]), Handoff::Moved(2));
    assert_eq!(held(&sink), vec![1, 2, 3, 4, 5]);
}

#[test]
fn capture_of_an_empty_block_leaves_the_ring_alone() {
    let sink = Buffer::new_handle(4);
    assert_eq!(capture_block_u8(&sink, &[9]), Handoff::Moved(1));
    assert_eq!(capture_block_u8(&sink, &[]), Handoff::EmptyBlock);
    let none: [f32; 0] = [];
    assert_eq!(
        capture_block(&sink, &none, |value: &f32| value.to_sample::<u8>()),
        Handoff::EmptyBlock
    );
    assert_eq!(held(&sink), vec![9]);
}

#[test]
fn capture_overrun_keeps_the_newest_samples() {
    let sink = Buffer::new_handle(4);
    assert_eq!(capture_block_u8(&sink, &[1, 2, 3, 4, 5, 6]), Handoff::Moved(6));
    assert_eq!(held(&sink), vec![3, 4, 5, 6]);
}

#[test]
fn capture_converts_float_samples() {
    let sink = Buffer::new_handle(8);
    let block: [f32; 4] = [0.0, -1.0, 0.5, -0.5];
    let done = capture_block(&sink, &block, |value: &f32| value.to_sample::<u8>());
    assert_eq!(done, Handoff::Moved(4));
    assert_eq!(held(&sink), vec![128, 0, 192, 64]);
}

#[test]
fn playback_underrun_is_padded_with_silence() {
    let source = Buffer::new_handle(64);
    let buffered: Vec<u8> = (1..=30).collect();
    assert_eq!(capture_block_u8(&source, &buffered), Handoff::Moved(30));
    let mut block = [7u8; 100];
    assert_eq!(playback_block_u8(&source, &mut block), Handoff::Moved(30));
    assert_eq!(&block[..30], &buffered[..]);
    assert_eq!(&block[30..], &[128u8; 70][..]);
    assert_eq!(held(&source), Vec::<u8>::new());
}

#[test]
fn playback_underrun_in_float_format() {
    let source = Buffer::new_handle(64);
    let buffered: Vec<u8> = (0..30).map(|i| (i * 8) as u8).collect();
    assert_eq!(capture_block_u8(&source, &buffered), Handoff::Moved(30));
    let mut block = [0.75f32; 100];
    let done = playback_block(&source, &mut block, f32::EQUILIBRIUM, |sample: &u8| {
        f32::from_sample(*sample)
    });
    assert_eq!(done, Handoff::Moved(30));
    for i in 0..30 {
        assert_eq!(block[i], (i as f32 * 8.0 - 128.0) / 128.0);
    }
    for i in 30..100 {
        assert_eq!(block[i], 0.0);
    }
}

#[test]
fn playback_from_an_empty_ring_is_all_silence() {
    let source = Buffer::new_handle(8);
    let mut block = [1u8; 16];
    assert_eq!(playback_block_u8(&source, &mut block), Handoff::Moved(0));
    assert_eq!(block, [128u8; 16]);
}

#[test]
fn playback_takes_no_more_than_the_block_holds() {
    let source = Buffer::new_handle(8);
    assert_eq!(capture_block_u8(&source, &[1, 2, 3, 4, 5, 6]), Handoff::Moved(6));
    let mut block = [0u8; 4];
    assert_eq!(playback_block_u8(&source, &mut block), Handoff::Moved(4));
    assert_eq!(block, [1, 2, 3, 4]);
    assert_eq!(held(&source), vec![5, 6]);
}

#[test]
fn playback_of_an_empty_block_leaves_the_ring_alone() {
    let source = Buffer::new_handle(8);
    assert_eq!(capture_block_u8(&source, &[1, 2]), Handoff::Moved(2));
    let mut block: [u8; 0] = [];
    assert_eq!(playback_block_u8(&source, &mut block), Handoff::EmptyBlock);
    assert_eq!(held(&source), vec![1, 2]);
}

#[test]
fn capture_into_a_ring_in_hand_pushes_the_converted_block() {
    let mut ring = Buffer::new(4);
    ring.push_all(&[1, 2]);
    let wide: [u16; 3] = [0x0a00, 0x0b00, 0x0c00];
    let done = capture_into(Some(&mut ring), &wide, |value: &u16| (*value >> 8) as u8);
    assert_eq!(done, Handoff::Moved(3));
    let mut out = [0u8; 4];
    assert_eq!(ring.pop_into(&mut out), 4);
    assert_eq!(out, [2, 10, 11, 12]);
}

#[test]
fn capture_without_the_ring_loses_the_block() {
    let done = capture_into(None, &[1u8, 2, 3], |value: &u8| *value);
    assert_eq!(done, Handoff::LockFailed);
}

#[test]
fn playback_from_a_ring_in_hand_fills_the_front_only() {
    let mut ring = Buffer::new(8);
    ring.push_all(&[10, 20, 30]);
    let mut block = [-1i16; 5];
    let done = playback_from(Some(&mut ring), &mut block, |sample: &u8| *sample as i16 * 2);
    assert_eq!(done, Handoff::Moved(3));
    assert_eq!(block, [20, 40, 60, -1, -1]);
    assert_eq!(ring.pop(), None);
}

#[test]
fn playback_from_a_ring_in_hand_takes_no_more_than_the_block_holds() {
    let mut ring = Buffer::new(8);
    ring.push_all(&[1, 2, 3, 4, 5]);
    let mut block = [0u8; 2];
    let done = playback_from(Some(&mut ring), &mut block, |sample: &u8| *sample);
    assert_eq!(done, Handoff::Moved(2));
    assert_eq!(block, [1, 2]);
    assert_eq!(ring.pop(), Some(3));
}

#[test]
fn playback_without_the_ring_leaves_the_block_alone() {
    let mut block = [128u8; 4];
    let done = playback_from(None, &mut block, |sample: &u8| *sample);
    assert_eq!(done, Handoff::LockFailed);
    assert_eq!(block, [128u8; 4]);
}
