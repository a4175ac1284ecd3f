use dizi::server::playback::{playback_step, seek_backward, seek_forward, PlaybackStep};

#[test]
fn seeking_moves_by_whole_seconds() {
    assert_eq!(seek_forward(100, 88200, 2), 100 + 176400);
    assert_eq!(seek_forward(usize::MAX - 1, 88200, 1), usize::MAX);
    assert_eq!(seek_backward(200000, 88200, 2), 200000 - 176400);
    assert_eq!(seek_backward(1000, 88200, 1), 0);
    assert_eq!(seek_backward(88200, 88200, 1), 0);
}

#[test]
fn a_request_inside_the_song_copies_what_is_asked() {
    let r = playback_step(0, 0, 1000, 100, 10, false);
    assert_eq!(r, PlaybackStep { ended: false, copied: 100, offset: 100, progress: Some(10) });
    let r = playback_step(100, 10, 1000, 5, 10, false);
    assert_eq!(r, PlaybackStep { ended: false, copied: 5, offset: 105, progress: None });
}

#[test]
fn a_request_past_the_end_copies_the_rest() {
    let r = playback_step(990, 99, 1000, 10, 10, false);
    assert_eq!(r, PlaybackStep { ended: false, copied: 10, offset: 1000, progress: Some(100) });
    let r = playback_step(995, 99, 1000, 10, 10, true);
    assert_eq!(r, PlaybackStep { ended: false, copied: 5, offset: 1006, progress: Some(100) });
    let r = playback_step(1006, 100, 1000, 10, 10, true);
    assert_eq!(r, PlaybackStep { ended: true, copied: 0, offset: 1006, progress: None });
}

#[test]
fn progress_after_a_rewind_depends_on_the_rule() {
    let r = playback_step(50, 30, 1000, 10, 10, false);
    assert_eq!(r.progress, Some(6));
    let r = playback_step(50, 30, 1000, 10, 10, true);
    assert_eq!(r.progress, None);
}

#[test]
fn a_rewind_undoes_a_fast_forward() {
    let ahead = seek_forward(1234, 88200, 7);
    assert_eq!(seek_backward(ahead, 88200, 7), 1234);
    assert!(seek_backward(1234, 88200, 7) <= 1234);
    assert!(seek_forward(1234, 88200, 7) >= 1234);
}

#[test]
fn reports_over_a_run_increase_and_stop_at_the_end() {
    for only_later in [false, true] {
        let (mut offset, mut reported) = (0usize, 0u64);
        let mut reports = Vec::new();
        let mut ends = 0;
        for wanted in [7usize, 3, 12, 1, 20, 9, 9, 9, 9, 30, 5, 5] {
            let step = playback_step(offset, reported, 95, wanted, 10, only_later);
            if step.ended {
                ends += 1;
                assert_eq!(step.offset, offset);
                assert!(step.progress.is_none());
                continue;
            }
            offset = step.offset;
            if let Some(s) = step.progress {
                reports.push(s);
                reported = s;
            }
        }
        assert!(reports.windows(2).all(|w| w[0] < w[1]));
        assert!(reports.iter().all(|&s| s > 0));
        assert!(ends > 0);
    }
}
