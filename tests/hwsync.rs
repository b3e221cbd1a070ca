use ledmatrix::args::Args;
use ledmatrix::geometry::{Geometry, FRAME_SIZE_BYTES, FRAME_SIZE_WORDS};
use ledmatrix::hwsync::{white_led_word, FlushGate, GateAction};

#[test]
fn stalled_fifo_is_never_flushed() {
    let mut gate = FlushGate::new(&Geometry::deployed());
    let stuck: u16 = (FRAME_SIZE_WORDS - 1) as u16;
    for _ in 0..10_000 {
        assert_eq!(gate.poll(stuck), GateAction::Wait);
    }
    assert_eq!(gate.wait_polls(), 10_000);
}

#[test]
fn flush_once_fifo_has_room() {
    let mut gate = FlushGate::new(&Geometry::deployed());
    assert_eq!(gate.threshold_words(), FRAME_SIZE_WORDS);
    assert_eq!(gate.poll(0), GateAction::Wait);
    assert_eq!(gate.poll(FRAME_SIZE_WORDS as u16), GateAction::Flush { len_bytes: FRAME_SIZE_BYTES });
    assert_eq!(gate.poll(u16::MAX), GateAction::Flush { len_bytes: FRAME_SIZE_BYTES });
    assert_eq!(gate.wait_polls(), 1);
}

#[test]
fn white_led_word_packs_channels() {
    assert_eq!(white_led_word(0x12, 0x34, 0x56), 0x561234);
    assert_eq!(white_led_word(0, 0, 0), 0);
}

#[test]
fn frame_budget() {
    let endless = Args { frame_cnt: 0, json: "config.json".to_string() };
    assert!(endless.should_render(u32::MAX));
    let three = Args { frame_cnt: 3, json: "config.json".to_string() };
    assert!(three.should_render(2));
    assert!(!three.should_render(3));
}
