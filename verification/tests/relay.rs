use audio_relay::relay::{deliver_into, drain_from, recv_step, send_done, send_step};
use audio_relay::sample_ring_buffer::{Buffer, BufferHandle};
use audio_relay::util::write_silence;

fn held(handle: &BufferHandle) -> Vec<u8> {
    let mut ring = handle.lock().unwrap();
    let mut out = Vec::new();
    while let Some(sample) = ring.pop() {
        out.push(sample);
    }
    out
}

#[test]
fn write_silence_sets_every_sample() {
    let mut block = [1u8, 2, 3, 4];
    write_silence(&mut block, 128);
    assert_eq!(block, [128, 128, 128, 128]);
    let mut wide = [3i32; 3];
    write_silence(&mut wide, 0);
    assert_eq!(wide, [0, 0, 0]);
    let mut none: [u8; 0] = [];
    write_silence(&mut none, 128);
    assert_eq!(none, []);
}

#[test]
fn received_datagram_larger_than_the_ring_leaves_its_tail() {
    let sink = Buffer::new_handle(5);
    let mut scratch = [128u8; 16];
    let datagram = [10u8, 11, 12, 13, 14, 15, 16, 17, 18, 19];
    scratch[..10].copy_from_slice(&datagram);
    assert!(recv_step(&sink, &mut scratch, 10));
    assert_eq!(held(&sink), vec![15, 16, 17, 18, 19]);
    assert_eq!(scratch, [128u8; 16]);
}

#[test]
fn received_datagrams_are_applied_in_arrival_order() {
    let sink = Buffer::new_handle(8);
    let mut scratch = [128u8; 4];
    scratch[..3].copy_from_slice(&[1, 2, 3]);
    assert!(recv_step(&sink, &mut scratch, 3));
    scratch[..2].copy_from_slice(&[4, 5]);
    assert!(recv_step(&sink, &mut scratch, 2));
    assert_eq!(held(&sink), vec![1, 2, 3, 4, 5]);
}

#[test]
fn received_empty_datagram_changes_nothing() {
    let sink = Buffer::new_handle(4);
    let mut scratch = [128u8; 4];
    scratch[..2].copy_from_slice(&[1, 2]);
    assert!(recv_step(&sink, &mut scratch, 2));
    scratch[0] = 77;
    assert!(recv_step(&sink, &mut scratch, 0));
    assert_eq!(scratch, [77, 128, 128, 128]);
    assert_eq!(held(&sink), vec![1, 2]);
}

#[test]
fn send_step_on_an_empty_ring_gives_an_empty_datagram_every_time() {
    let source = Buffer::new_handle(8);
    let mut scratch = [128u8; 4];
    for _ in 0..3 {
        assert_eq!(send_step(&source, &mut scratch), Some(0));
        send_done(&mut scratch, 0);
        assert_eq!(scratch, [128u8; 4]);
    }
}

#[test]
fn send_step_drains_up_to_one_datagram() {
    let source = Buffer::new_handle(16);
    source.lock().unwrap().push_all(&[1, 2, 3, 4, 5, 6, 7]);
    let mut scratch = [128u8; 4];
    assert_eq!(send_step(&source, &mut scratch), Some(4));
    assert_eq!(scratch, [1, 2, 3, 4]);
    send_done(&mut scratch, 4);
    assert_eq!(scratch, [128u8; 4]);
    assert_eq!(send_step(&source, &mut scratch), Some(3));
    assert_eq!(scratch, [5, 6, 7, 128]);
    send_done(&mut scratch, 3);
    assert_eq!(scratch, [128u8; 4]);
    assert_eq!(send_step(&source, &mut scratch), Some(0));
    assert_eq!(held(&source), Vec::<u8>::new());
}

#[test]
fn send_done_resets_only_what_was_sent() {
    let mut scratch = [1u8, 2, 3, 4, 5];
    send_done(&mut scratch, 2);
    assert_eq!(scratch, [128, 128, 3, 4, 5]);
    send_done(&mut scratch, 5);
    assert_eq!(scratch, [128u8; 5]);
}

#[test]
fn what_one_side_sends_the_other_side_plays() {
    let capture = Buffer::new_handle(32);
    let playback = Buffer::new_handle(32);
    capture.lock().unwrap().push_all(&[9, 8, 7, 6, 5]);
    let mut out = [128u8; 8];
    let n = send_step(&capture, &mut out).unwrap();
    let mut incoming = [128u8; 8];
    incoming[..n].copy_from_slice(&out[..n]);
    send_done(&mut out, n);
    assert!(recv_step(&playback, &mut incoming, n));
    assert_eq!(held(&playback), vec![9, 8, 7, 6, 5]);
}

#[test]
fn drain_from_a_ring_in_hand_gives_the_datagram() {
    let mut ring = Buffer::new(8);
    ring.push_all(&[1, 2, 3, 4, 5]);
    let mut scratch = [128u8; 3];
    assert_eq!(drain_from(Some(&mut ring), &mut scratch), Some(3));
    assert_eq!(scratch, [1, 2, 3]);
    let mut rest = [128u8; 3];
    assert_eq!(drain_from(Some(&mut ring), &mut rest), Some(2));
    assert_eq!(rest, [4, 5, 128]);
    assert_eq!(drain_from(Some(&mut ring), &mut rest), Some(0));
    assert_eq!(rest, [4, 5, 128]);
}

#[test]
fn drain_without_the_ring_gives_no_datagram() {
    let mut scratch = [7u8, 8, 9];
    assert_eq!(drain_from(None, &mut scratch), None);
    assert_eq!(scratch, [7, 8, 9]);
}

#[test]
fn deliver_into_a_ring_in_hand_keeps_the_newest_bytes() {
    let mut ring = Buffer::new(5);
    ring.push_all(&[100, 101]);
    assert!(deliver_into(Some(&mut ring), &[10, 11, 12, 13, 14, 15, 16, 17, 18, 19]));
    let mut out = [0u8; 8];
    assert_eq!(ring.pop_into(&mut out), 5);
    assert_eq!(&out[..5], &[15, 16, 17, 18, 19]);
}

#[test]
fn deliver_without_the_ring_drops_the_datagram() {
    assert!(!deliver_into(None, &[1, 2, 3]));
}
