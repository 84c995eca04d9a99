use physarum_audio::stream::FormatChange;
use physarum_audio::stream::StreamTracker;

#[test]
fn first_pull_reads_the_format() {
    let mut t = StreamTracker::new();
    assert_eq!(t.channels(), 0);
    assert!(t.begin_pull());
    let change = t.start_span(Some(4), 2, 44_100);
    assert_eq!(change, Some(FormatChange { num_channels: 2, sample_rate: 44_100 }));
    assert_eq!(t.channels(), 2);
    assert_eq!(t.sample_rate(), 44_100);
}

#[test]
fn samples_are_attributed_to_channels_in_turn() {
    let mut t = StreamTracker::new();
    assert!(t.begin_pull());
    t.start_span(None, 3, 48_000);
    let got: Vec<Option<u16>> = (0..7)
        .map(|_| {
            assert!(!t.begin_pull());
            t.on_sample()
        })
        .collect();
    assert_eq!(got, vec![Some(0), Some(1), Some(2), Some(0), Some(1), Some(2), Some(0)]);
}

#[test]
fn span_boundary_after_countdown() {
    let mut t = StreamTracker::new();
    assert!(t.begin_pull());
    t.start_span(Some(2), 1, 8_000);
    t.on_sample();
    assert!(!t.begin_pull());
    t.on_sample();
    assert!(!t.begin_pull());
    t.on_sample();
    assert!(t.begin_pull());
    // same format again: nothing to report
    assert_eq!(t.start_span(Some(2), 1, 8_000), None);
    // a new sample rate alone is a change
    assert!(!t.begin_pull());
    assert!(!t.begin_pull());
    assert!(t.begin_pull());
    assert_eq!(
        t.start_span(Some(2), 1, 16_000),
        Some(FormatChange { num_channels: 1, sample_rate: 16_000 })
    );
}

#[test]
fn span_start_resets_channel_index() {
    let mut t = StreamTracker::new();
    t.begin_pull();
    t.start_span(Some(0), 2, 44_100);
    assert_eq!(t.on_sample(), Some(0));
    assert!(t.begin_pull());
    t.start_span(Some(0), 2, 44_100);
    assert_eq!(t.on_sample(), Some(0));
}

#[test]
fn no_channels_means_no_attribution() {
    let mut t = StreamTracker::new();
    assert_eq!(t.on_sample(), None);
    t.begin_pull();
    assert_eq!(t.start_span(None, 0, 44_100), Some(FormatChange { num_channels: 0, sample_rate: 44_100 }));
    assert_eq!(t.on_sample(), None);
}
