use serial_controller::{ColorSnapshot, ColorState, Rgb, RenderMessage, TrayMessage};
use serial_controller::animator::Animator;
use serial_controller::bridge::{color_from_data, snapshot_from_words, status_is_live, ColorBridge};
use serial_controller::transmit::Transmitter;
use serial_controller::tpm2::ping;
use serial_controller::wave::WaveState;
use serial_controller::wled::WLEDMessage;
use serial_controller::zones::map_zones;

fn snapshot() -> ColorSnapshot {
    ColorSnapshot {
        zone1: Rgb { red: 10, green: 0, blue: 0 },
        zone2: Rgb { red: 0, green: 20, blue: 0 },
        zone3: Rgb { red: 0, green: 0, blue: 30 },
        zone4: Rgb { red: 40, green: 40, blue: 40 },
    }
}

#[test]
fn zone_sizes_sum_to_led_count_for_small_strips() {
    let snap = snapshot();
    for leds in 1..=16 {
        let buf = map_zones(&snap, leds);
        assert_eq!(buf.len(), leds);
    }
}

#[test]
fn zones_are_contiguous_and_uniform() {
    let buf = map_zones(&snapshot(), 10);
    // q = 2: two LEDs per leading zone, four in the last.
    assert_eq!(&buf[0..2], &[snapshot().zone1; 2]);
    assert_eq!(&buf[2..4], &[snapshot().zone2; 2]);
    assert_eq!(&buf[4..6], &[snapshot().zone3; 2]);
    assert_eq!(&buf[6..10], &[snapshot().zone4; 4]);
}

#[test]
fn tiny_strip_goes_entirely_to_the_last_zone() {
    let buf = map_zones(&snapshot(), 3);
    assert_eq!(buf, vec![snapshot().zone4; 3]);
}

#[test]
fn wave_hue_follows_the_closed_form() {
    // Starting hue 350, increment 7: after 3 ticks (350 + 21) mod 360 = 11.
    let mut w = WaveState::new(5, 350, 7);
    for _ in 0..3 {
        w.tick(Rgb { red: 1, green: 1, blue: 1 });
    }
    assert_eq!(w.hue, 11);
}

#[test]
fn wave_ring_length_never_changes() {
    let mut w = WaveState::new(7, 0, 1);
    for t in 0..500 {
        w.tick(Rgb { red: t as u8, green: 0, blue: 0 });
        assert_eq!(w.ring.len(), 7);
    }
}

#[test]
fn wave_shifts_new_color_to_the_front() {
    let mut w = WaveState::new(3, 0, 1);
    w.tick(Rgb { red: 1, green: 0, blue: 0 });
    w.tick(Rgb { red: 2, green: 0, blue: 0 });
    assert_eq!(
        w.ring,
        vec![
            Rgb { red: 2, green: 0, blue: 0 },
            Rgb { red: 1, green: 0, blue: 0 },
            Rgb { red: 0, green: 0, blue: 0 },
        ]
    );
}

#[test]
fn bridge_reads_follow_the_publishes() {
    let mut b = ColorBridge::new();
    b.publish_status(true);
    assert_eq!(b.read(), (ColorState::Chroma, None));
    let snap = snapshot();
    b.publish_colors(snap);
    assert_eq!(b.read(), (ColorState::Chroma, Some(snap)));
}

#[test]
fn not_live_without_snapshot_falls_back_to_wave() {
    let mut b = ColorBridge::new();
    b.publish_status(true);
    b.publish_status(false);
    assert_eq!(b.read(), (ColorState::Wave, None));
}

#[test]
fn not_live_with_snapshot_keeps_chroma() {
    let mut b = ColorBridge::new();
    b.publish_status(true);
    b.publish_colors(snapshot());
    b.publish_status(false);
    assert_eq!(b.read(), (ColorState::Chroma, Some(snapshot())));
}

#[test]
fn status_payload_is_live_when_nonzero() {
    assert!(status_is_live(1));
    assert!(status_is_live(-7));
    assert!(!status_is_live(0));
}

#[test]
fn broadcast_word_unpacks_red_first() {
    let c = color_from_data(0x0056_3412);
    assert_eq!(c, Rgb { red: 0x12, green: 0x34, blue: 0x56 });
}

#[test]
fn broadcast_payload_needs_five_words() {
    assert_eq!(snapshot_from_words(&vec![0, 1, 2, 3]), None);
    let words = vec![0, 0x000000FF, 0x0000FF00, 0x00FF0000, 0x00102030];
    let snap = snapshot_from_words(&words).unwrap();
    assert_eq!(snap.zone1, Rgb { red: 0xFF, green: 0, blue: 0 });
    assert_eq!(snap.zone2, Rgb { red: 0, green: 0xFF, blue: 0 });
    assert_eq!(snap.zone3, Rgb { red: 0, green: 0, blue: 0xFF });
    assert_eq!(snap.zone4, Rgb { red: 0x30, green: 0x20, blue: 0x10 });
}

#[test]
fn diff_suppression_skips_unchanged_frames() {
    let mut t = Transmitter::new(100);
    let msgs = vec![RenderMessage::Render(ping())];
    let out = t.tick(&msgs);
    assert!(!out.quit);
    assert!(out.writes.is_empty());
    assert_eq!(t.elapsed, 1);
}

#[test]
fn forced_flush_after_threshold_plus_one_quiet_ticks() {
    let mut t = Transmitter::new(100);
    let empty: Vec<RenderMessage> = Vec::new();
    let mut writes_seen = 0;
    for tick in 1..=101u64 {
        let out = t.tick(&empty);
        assert!(!out.quit);
        writes_seen += out.writes.len();
        if tick <= 100 {
            assert_eq!(writes_seen, 0);
            assert_eq!(t.elapsed, tick);
        }
    }
    // Exactly one flush — the retransmitted keepalive — and the counter reset.
    assert_eq!(writes_seen, 1);
    assert_eq!(t.elapsed, 0);
}

#[test]
fn keepalives_repeat_every_threshold_plus_one_ticks() {
    let mut t = Transmitter::new(3);
    let empty: Vec<RenderMessage> = Vec::new();
    let mut flush_ticks = Vec::new();
    for tick in 1..=12u64 {
        if !t.tick(&empty).writes.is_empty() {
            flush_ticks.push(tick);
        }
    }
    assert_eq!(flush_ticks, vec![4, 8, 12]);
}

#[test]
fn changed_frame_flushes_at_once() {
    let mut t = Transmitter::new(100);
    let frame = vec![0xC9, 0xDA, 0x00, 0x03, 1, 2, 3, 0x36];
    let out = t.tick(&vec![RenderMessage::Render(frame.clone())]);
    assert_eq!(out.writes, vec![frame.clone()]);
    assert_eq!(t.last, frame);
    assert_eq!(t.elapsed, 0);
}

#[test]
fn only_the_newest_frame_in_a_drain_survives() {
    let mut t = Transmitter::new(100);
    let a = vec![1, 1, 1];
    let b = vec![2, 2, 2];
    let out = t.tick(&vec![RenderMessage::Render(a), RenderMessage::Render(b.clone())]);
    assert_eq!(out.writes, vec![b.clone()]);
    assert_eq!(t.last, b);
}

#[test]
fn device_commands_are_written_in_order() {
    let mut t = Transmitter::new(100);
    let out = t.tick(&vec![
        RenderMessage::WLED(WLEDMessage::On),
        RenderMessage::WLED(WLEDMessage::AdjustBrightness(64)),
    ]);
    assert!(!out.quit);
    assert_eq!(
        out.writes,
        vec![br#"{"on":true}"#.to_vec(), br#"{"bri":64}"#.to_vec()]
    );
}

#[test]
fn shutdown_precedes_frames_queued_behind_it() {
    let mut t = Transmitter::new(100);
    let last_before = t.last.clone();
    let out = t.tick(&vec![
        RenderMessage::Render(vec![1, 2, 3]),
        RenderMessage::Quit,
        RenderMessage::Render(vec![4, 5, 6]),
    ]);
    assert!(out.quit);
    assert!(out.writes.is_empty());
    assert_eq!(t.last, last_before);
}

#[test]
fn commands_before_a_shutdown_still_run() {
    let mut t = Transmitter::new(100);
    let out = t.tick(&vec![
        RenderMessage::WLED(WLEDMessage::Off),
        RenderMessage::Quit,
        RenderMessage::WLED(WLEDMessage::On),
    ]);
    assert!(out.quit);
    assert_eq!(out.writes, vec![br#"{"on":false}"#.to_vec()]);
}

#[test]
fn animator_wave_tick_emits_a_frame() {
    let mut a = Animator::new(4, 0, 1);
    let out = a.step(&Vec::new(), ColorState::Wave, &None, Rgb { red: 5, green: 6, blue: 7 });
    assert!(!out.quit);
    let frame = out.frame.unwrap();
    assert_eq!(frame.len(), 5 + 3 * 4);
    // The new color leads the buffer.
    assert_eq!(&frame[4..7], &[5, 6, 7]);
}

#[test]
fn animator_chroma_without_snapshot_skips_the_tick() {
    let mut a = Animator::new(4, 0, 1);
    let out = a.step(&Vec::new(), ColorState::Chroma, &None, Rgb { red: 0, green: 0, blue: 0 });
    assert!(!out.quit);
    assert!(out.frame.is_none());
}

#[test]
fn animator_chroma_maps_the_snapshot_zones() {
    let mut a = Animator::new(8, 0, 1);
    let out = a.step(
        &Vec::new(),
        ColorState::Chroma,
        &Some(snapshot()),
        Rgb { red: 0, green: 0, blue: 0 },
    );
    let frame = out.frame.unwrap();
    assert_eq!(frame.len(), 5 + 3 * 8);
    // q = 2: LEDs 0-1 show zone 1, LEDs 6-7 show zone 4.
    assert_eq!(&frame[4..7], &[10, 0, 0]);
    assert_eq!(&frame[22..25], &[40, 40, 40]);
}

#[test]
fn animator_override_takes_precedence_over_derived_state() {
    let mut a = Animator::new(4, 0, 1);
    let msgs = vec![TrayMessage::OverrideState(ColorState::Chroma)];
    let out = a.step(&msgs, ColorState::Wave, &None, Rgb { red: 1, green: 1, blue: 1 });
    // Override says Chroma and there is no snapshot: no frame this tick.
    assert!(!out.quit);
    assert!(out.frame.is_none());
}

#[test]
fn animator_last_override_in_a_drain_wins() {
    let mut a = Animator::new(4, 0, 1);
    let msgs = vec![
        TrayMessage::OverrideState(ColorState::Chroma),
        TrayMessage::OverrideState(ColorState::Wave),
    ];
    let out = a.step(&msgs, ColorState::Chroma, &None, Rgb { red: 3, green: 0, blue: 0 });
    assert!(!out.quit);
    assert!(out.frame.is_some());
}

#[test]
fn animator_quit_stops_the_tick_without_a_frame() {
    let mut a = Animator::new(4, 7, 1);
    let msgs = vec![TrayMessage::Quit, TrayMessage::OverrideState(ColorState::Chroma)];
    let out = a.step(&msgs, ColorState::Wave, &None, Rgb { red: 1, green: 1, blue: 1 });
    assert!(out.quit);
    assert!(out.frame.is_none());
    // The wave did not advance.
    assert_eq!(a.wave.hue, 7);
}
