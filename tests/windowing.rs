use musualiser::framing::SampleFramer;
use musualiser::window::{window_length, ChannelSelector, FrameAccumulator, InterleavedWindows};

#[test]
fn window_length_at_five_analyses_per_second() {
    assert_eq!(window_length(44100, 5), 8820);
    assert_eq!(window_length(48000, 5), 9600);
    assert_eq!(window_length(44100, 15), 2940);
}

#[test]
fn partial_window_is_never_yielded() {
    let mut acc: FrameAccumulator<u32> = FrameAccumulator::new(8);
    for s in 0..7u32 {
        assert!(acc.push(s).is_none());
    }
    assert_eq!(acc.buffered(), 7);
}

#[test]
fn full_window_keeps_three_quarters() {
    let mut acc: FrameAccumulator<u32> = FrameAccumulator::new(8);
    let mut got = None;
    for s in 0..8u32 {
        got = acc.push(s);
    }
    assert_eq!(got, Some((0..8).collect::<Vec<u32>>()));
    assert_eq!(acc.buffered(), 6);
    assert!(acc.push(8).is_none());
    assert_eq!(acc.push(9), Some((2..10).collect::<Vec<u32>>()));
}

#[test]
fn feed_yields_overlapping_windows_in_order() {
    let mut acc: FrameAccumulator<u32> = FrameAccumulator::new(8);
    let stream: Vec<u32> = (0..20).collect();
    let windows = acc.feed(&stream);
    // (20 - 8) / 2 + 1 windows, each starting two samples after the last
    assert_eq!(windows.len(), 7);
    for (k, w) in windows.iter().enumerate() {
        let start = 2 * k as u32;
        assert_eq!(*w, (start..start + 8).collect::<Vec<u32>>());
    }
    assert_eq!(acc.buffered(), 20 - 7 * 2);
}

#[test]
fn samples_consumed_after_n_windows() {
    // window 12, advance 3: the n-th window ends at sample 12 + (n - 1) * 3
    for n in 1..6usize {
        let mut acc: FrameAccumulator<usize> = FrameAccumulator::new(12);
        let stream: Vec<usize> = (0..12 + (n - 1) * 3).collect();
        let windows = acc.feed(&stream);
        assert_eq!(windows.len(), n);
        assert_eq!(*windows[n - 1].last().unwrap(), 12 + (n - 1) * 3 - 1);
        for k in 1..n {
            assert_eq!(windows[k][..9], windows[k - 1][3..]);
        }
    }
}

#[test]
fn feed_in_runs_matches_feed_at_once() {
    let stream: Vec<u32> = (0..50).collect();
    let mut whole: FrameAccumulator<u32> = FrameAccumulator::new(10);
    let all = whole.feed(&stream);
    let mut parts: FrameAccumulator<u32> = FrameAccumulator::new(10);
    let mut pieces = Vec::new();
    for run in stream.chunks(7) {
        pieces.extend(parts.feed(&run.to_vec()));
    }
    assert_eq!(all, pieces);
    assert_eq!(whole.buffered(), parts.buffered());
}

#[test]
fn selector_keeps_first_channel() {
    let mut sel = ChannelSelector::new(2);
    let kept: Vec<bool> = (0..6).map(|_| sel.accept()).collect();
    assert_eq!(kept, vec![true, false, true, false, true, false]);
    let mut mono = ChannelSelector::new(1);
    assert!((0..4).all(|_| mono.accept()));
}

#[test]
fn interleaved_windows_use_left_channel_only() {
    let mut w: InterleavedWindows<i32> = InterleavedWindows::new(2, 4);
    let mut out = Vec::new();
    for i in 0..8i32 {
        // left samples are positive, right ones negative
        let s = if i % 2 == 0 { i / 2 + 1 } else { -(i / 2 + 1) };
        if let Some(win) = w.next_sample(s) {
            out.push(win);
        }
    }
    assert_eq!(out, vec![vec![1, 2, 3, 4]]);
}

#[test]
fn framer_regroups_split_samples() {
    let mut f = SampleFramer::new();
    let words = f.push_bytes(&vec![1, 2, 3, 4, 5]);
    assert_eq!(words, vec![[1, 2, 3, 4]]);
    assert_eq!(f.pending(), 1);
    let words = f.push_bytes(&vec![6, 7]);
    assert!(words.is_empty());
    assert_eq!(f.pending(), 3);
    let words = f.push_bytes(&vec![8, 9, 10, 11, 12, 13]);
    assert_eq!(words, vec![[5, 6, 7, 8], [9, 10, 11, 12]]);
    assert_eq!(f.pending(), 1);
}

#[test]
fn framer_words_decode_as_floats() {
    let samples = [0.5f32, -1.25, 3.0];
    let bytes: Vec<u8> = samples.iter().flat_map(|s| s.to_ne_bytes()).collect();
    let mut f = SampleFramer::new();
    let mut decoded = Vec::new();
    for run in bytes.chunks(5) {
        for w in f.push_bytes(&run.to_vec()) {
            decoded.push(f32::from_ne_bytes(w));
        }
    }
    assert_eq!(decoded, samples.to_vec());
    assert_eq!(f.pending(), 0);
}
