use joybus_gc::engine::emit_window;
use joybus_gc::engine::transfer_byte;
use joybus_gc::engine::BitSampler;
use joybus_gc::engine::WriteStep;
use joybus_gc::engine::WriteWindow;
use joybus_gc::engine::write_step;
use joybus_gc::session::poll_wait_step;
use joybus_gc::session::PollWait;
use joybus_gc::session::SessionAction;
use joybus_gc::transport::encode_frame;
use joybus_gc::transport::engine_word;
use joybus_gc::transport::recv_step;
use joybus_gc::transport::LineDirection;
use joybus_gc::transport::RecvStep;
use joybus_gc::transport::Transport;
use joybus_gc::transport::QUEUE_DEPTH;

#[test]
fn restart_for_read_discards_queued_bytes() {
    // Direction-switch invariant: nothing queued before a restart is ever
    // observed after it.
    let mut t = Transport::new();
    assert!(t.engine_deliver(0x40));
    assert!(t.engine_deliver(0x41));
    assert!(t.queue_word(engine_word(0x09, true)));
    t.restart_for_read();
    assert_eq!(t.try_take(), None);
    assert_eq!(t.engine_take_word(), None);
}

#[test]
fn restart_for_write_discards_queued_bytes() {
    let mut t = Transport::new();
    assert!(t.engine_deliver(0x12));
    assert!(t.queue_word(0xFFFF_FFFF));
    t.restart_for_write();
    assert_eq!(t.try_take(), None);
    assert_eq!(t.engine_take_word(), None);
}

#[test]
fn receive_queue_is_fifo_and_bounded() {
    let mut t = Transport::new();
    for value in 0..QUEUE_DEPTH as u8 {
        assert!(t.engine_deliver(value));
    }
    // The queue is at its fixed depth: the next byte is dropped.
    assert!(!t.engine_deliver(0xAA));
    for value in 0..QUEUE_DEPTH as u8 {
        assert_eq!(t.try_take(), Some(value));
    }
    assert_eq!(t.try_take(), None);
}

#[test]
fn transmit_queue_is_fifo_and_bounded() {
    let mut t = Transport::new();
    for word in [1u32, 2, 3, 4] {
        assert!(t.queue_word(word));
    }
    assert!(!t.queue_word(5));
    for word in [1u32, 2, 3, 4] {
        assert_eq!(t.engine_take_word(), Some(word));
    }
    assert_eq!(t.engine_take_word(), None);
}

#[test]
fn recv_returns_byte_even_at_the_bound() {
    // A byte that arrived at B - epsilon is returned, not timed out.
    assert_eq!(recv_step(Some(0x40), 1_999_999, 2_000_000), RecvStep::Got(0x40));
    assert_eq!(recv_step(Some(0x40), 2_000_000, 2_000_000), RecvStep::Got(0x40));
}

#[test]
fn recv_truncates_the_queue_word_to_its_low_byte() {
    assert_eq!(recv_step(Some(0x0000_01FF), 0, 2_000_000), RecvStep::Got(0xFF));
    assert_eq!(recv_step(Some(0x0000_0041), 0, 2_000_000), RecvStep::Got(0x41));
}

#[test]
fn recv_times_out_only_past_the_bound() {
    // With no byte, the wait keeps polling up to the bound and gives up
    // one polling granularity after it.
    assert_eq!(recv_step(None, 0, 2_000_000), RecvStep::KeepWaiting);
    assert_eq!(recv_step(None, 2_000_000, 2_000_000), RecvStep::KeepWaiting);
    assert_eq!(recv_step(None, 2_000_001, 2_000_000), RecvStep::TimedOut);
}

#[test]
fn unknown_command_recovery_then_poll_succeeds() {
    // Scenario: byte 0x77 arrives; no response is sent, framing is
    // restarted, and a subsequent poll still succeeds.
    let mut t = Transport::new();
    assert!(t.engine_deliver(0x77));
    let received = t.try_take();
    assert_eq!(received, Some(0x77));
    assert_eq!(
        poll_wait_step(received),
        PollWait::Respond(SessionAction::RecoverFraming)
    );
    t.restart_for_read();
    assert_eq!(t.try_take(), None);
    assert_eq!(t.direction_is_input(), true);
    assert!(t.engine_deliver(0x40));
    assert_eq!(poll_wait_step(t.try_take()), PollWait::PollReady);
}

#[test]
fn engine_word_layout() {
    assert_eq!(engine_word(0x09, false), 0x0900_0000);
    assert_eq!(engine_word(0x09, true), 0x0980_0000);
    assert_eq!(engine_word(0xFF, true), 0xFF80_0000);
    assert_eq!(engine_word(0x00, false), 0x0000_0000);
}

#[test]
fn encode_frame_marks_only_the_last_byte() {
    let words = encode_frame(&[0x09, 0x00, 0x03]);
    assert_eq!(words, vec![0x0900_0000, 0x0000_0000, 0x0380_0000]);
    let single = encode_frame(&[0x42]);
    assert_eq!(single, vec![0x4280_0000]);
    assert_eq!(encode_frame(&[]), Vec::<u32>::new());
}

#[test]
fn write_window_shifts_msb_first() {
    let mut w = WriteWindow::new();
    assert!(w.exhausted());
    w.refill(engine_word(0b1010_0000, false));
    let mut bits = Vec::new();
    for _ in 0..8 {
        match write_step(&mut w) {
            WriteStep::DataBit(bit) => bits.push(bit),
            other => panic!("expected a data bit, got {other:?}"),
        }
    }
    assert_eq!(bits, vec![true, false, true, false, false, false, false, false]);
    // Ninth bit clear: the engine chains into the next byte gap-free.
    assert_eq!(write_step(&mut w), WriteStep::ChainNextByte);
    assert!(w.exhausted());
}

#[test]
fn write_window_stop_bit_returns_to_read() {
    let mut w = WriteWindow::new();
    w.refill(engine_word(0x5A, true));
    for _ in 0..8 {
        assert!(matches!(write_step(&mut w), WriteStep::DataBit(_)));
    }
    assert_eq!(write_step(&mut w), WriteStep::StopToRead);
}

#[test]
fn sampler_assembles_msb_first() {
    let mut s = BitSampler::new();
    let levels = [false, true, false, false, false, false, false, true];
    for (i, level) in levels.into_iter().enumerate() {
        let delivered = s.sample(level);
        if i < 7 {
            assert_eq!(delivered, None);
        } else {
            assert_eq!(delivered, Some(0x41));
        }
    }
}

#[test]
fn transfer_byte_round_trips() {
    for value in 0u16..=255u16 {
        let value = value as u8;
        assert_eq!(transfer_byte(value, false), (value, false));
        assert_eq!(transfer_byte(value, true), (value, true));
    }
}

#[test]
fn transfer_frame_reproduces_the_payload() {
    let (decoded, stops) = joybus_gc::engine::transfer_frame(&[0x09, 0x00, 0x03]);
    assert_eq!(decoded, vec![0x09, 0x00, 0x03]);
    assert_eq!(stops, vec![false, false, true]);
}

#[test]
fn frame_round_trips_through_the_engine_model() {
    // A whole reply frame: packed into engine words, shifted out bit by
    // bit, sampled back; the stop marker ends exactly the last byte.
    let payload = [0x09u8, 0x00, 0x03];
    let words = encode_frame(&payload);
    let mut decoded = Vec::new();
    let mut stops = Vec::new();
    for word in words {
        let (bits, stop) = emit_window(word);
        let mut sampler = BitSampler::new();
        let mut byte = None;
        for bit in bits {
            byte = sampler.sample(bit);
        }
        decoded.push(byte.expect("eight samples deliver a byte"));
        stops.push(stop);
    }
    assert_eq!(decoded, vec![0x09, 0x00, 0x03]);
    assert_eq!(stops, vec![false, false, true]);
}

#[test]
fn fresh_transport_is_reading_and_empty() {
    let mut t = Transport::new();
    assert_eq!(t.try_take(), None);
    assert_eq!(t.engine_take_word(), None);
    assert_eq!(t.direction_is_input(), true);
    t.restart_for_write();
    assert_eq!(t.direction_is_input(), false);
}

#[test]
fn line_direction_values() {
    assert_ne!(LineDirection::Input, LineDirection::Output);
}
