use physarum_audio::collector::Collector;
use physarum_audio::WINDOW;

fn bits(x: f32) -> u32 {
    x.to_bits()
}

#[test]
fn new_collector_has_no_channels() {
    let c = Collector::new();
    assert_eq!(c.channel_count(), 0);
    assert_eq!(c.sample_rate(), 0);
    assert!(c.snapshot().is_empty());
}

#[test]
fn format_change_creates_silent_windows() {
    let mut c = Collector::new();
    c.on_format_change(3, 48_000);
    assert_eq!(c.channel_count(), 3);
    assert_eq!(c.sample_rate(), 48_000);
    let snap = c.snapshot();
    assert_eq!(snap.len(), 3);
    for w in &snap {
        assert_eq!(w.len(), WINDOW);
        assert!(w.iter().all(|&v| v == 0));
    }
}

#[test]
fn observe_sample_slides_window() {
    let mut c = Collector::new();
    c.on_format_change(2, 44_100);
    assert!(c.observe_sample(7, 1));
    assert!(c.observe_sample(9, 1));
    assert_eq!(c.sample_at(1, WINDOW - 1), 9);
    assert_eq!(c.sample_at(1, WINDOW - 2), 7);
    assert_eq!(c.sample_at(1, WINDOW - 3), 0);
    assert_eq!(c.sample_at(0, WINDOW - 1), 0);
}

#[test]
fn observe_sample_on_missing_channel_is_ignored() {
    let mut c = Collector::new();
    assert!(!c.observe_sample(5, 0));
    c.on_format_change(2, 44_100);
    assert!(!c.observe_sample(5, 2));
    let snap = c.snapshot();
    assert!(snap.iter().all(|w| w.iter().all(|&v| v == 0)));
}

#[test]
fn window_keeps_most_recent_samples_fifo() {
    let mut c = Collector::new();
    c.on_format_change(2, 44_100);
    let total = WINDOW as u32 + 5;
    for i in 0..total {
        // interleave: channel 0 gets i, channel 1 gets i + 100_000
        assert!(c.observe_sample(i, 0));
        assert!(c.observe_sample(i + 100_000, 1));
    }
    let snap = c.snapshot();
    for (pos, &v) in snap[0].iter().enumerate() {
        assert_eq!(v, 5 + pos as u32);
    }
    for (pos, &v) in snap[1].iter().enumerate() {
        assert_eq!(v, 100_005 + pos as u32);
    }
}

#[test]
fn window_before_full_holds_all_calls_after_silence() {
    let mut c = Collector::new();
    c.on_format_change(1, 44_100);
    for i in 1..=10u32 {
        c.observe_sample(i, 0);
    }
    let snap = c.snapshot();
    assert!(snap[0][..WINDOW - 10].iter().all(|&v| v == 0));
    assert_eq!(&snap[0][WINDOW - 10..], &[1, 2, 3, 4, 5, 6, 7, 8, 9, 10]);
}

#[test]
fn channel_count_reset_discards_history() {
    let mut c = Collector::new();
    c.on_format_change(2, 44_100);
    for _ in 0..100 {
        c.observe_sample(bits(0.5), 0);
        c.observe_sample(bits(0.5), 1);
    }
    c.on_format_change(4, 22_050);
    assert_eq!(c.sample_rate(), 22_050);
    let snap = c.snapshot();
    assert_eq!(snap.len(), 4);
    let mut sum = [0.0f32; WINDOW];
    for w in &snap {
        for (i, &v) in w.iter().enumerate() {
            sum[i] += f32::from_bits(v);
        }
    }
    assert!(sum.iter().all(|&v| v == 0.0));
}

#[test]
fn snapshot_sums_channels_position_wise() {
    let mut c = Collector::new();
    c.on_format_change(2, 44_100);
    for _ in 0..WINDOW {
        c.observe_sample(bits(0.5), 0);
        c.observe_sample(bits(0.25), 1);
    }
    let snap = c.snapshot();
    let mut out = [0.0f32; WINDOW];
    for w in &snap {
        for (i, &v) in w.iter().enumerate() {
            out[i] += f32::from_bits(v);
        }
    }
    assert!(out.iter().all(|&v| v == 0.75));
}

#[test]
fn eight_channel_tone_fills_every_window() {
    let mut c = Collector::new();
    c.on_format_change(8, 44_100);
    let tone: Vec<f32> = (0..2 * WINDOW)
        .map(|n| {
            if n < WINDOW / 2 {
                0.0
            } else {
                (2.0 * std::f32::consts::PI * 1000.0 * n as f32 / 44_100.0).sin()
            }
        })
        .collect();
    for &s in &tone {
        for ch in 0..8u16 {
            c.observe_sample(bits(s), ch);
        }
    }
    let snap = c.snapshot();
    for w in &snap {
        let expected: Vec<u32> = tone[tone.len() - WINDOW..].iter().map(|&s| bits(s)).collect();
        assert_eq!(w, &expected);
    }
}
