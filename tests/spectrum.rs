use musualiser::spectrum::{half_spectrum, is_audible, SpectralAnalyzer};
use musualiser::window::{window_length, FrameAccumulator};
use rustfft::num_complex::Complex;
use rustfft::FftPlanner;

#[test]
fn half_spectrum_keeps_first_half() {
    let t: Vec<u32> = (0..10).collect();
    assert_eq!(half_spectrum(&t), vec![0, 1, 2, 3, 4]);
    let odd: Vec<u32> = (0..7).collect();
    assert_eq!(half_spectrum(&odd), vec![0, 1, 2]);
    assert!(half_spectrum(&Vec::<u32>::new()).is_empty());
}

#[test]
fn audible_range_is_exclusive() {
    // 44100 / 8820 = 5 Hz per bin
    assert!(!is_audible(0, 44100, 8820));
    assert!(!is_audible(4, 44100, 8820)); // 20 Hz
    assert!(is_audible(5, 44100, 8820)); // 25 Hz
    assert!(is_audible(3999, 44100, 8820)); // 19995 Hz
    assert!(!is_audible(4000, 44100, 8820)); // 20000 Hz
}

#[test]
fn analyze_keeps_audible_half_in_order() {
    let a = SpectralAnalyzer::new(44100, 8820);
    let transform: Vec<u32> = (0..8820).collect();
    let bins = a.analyze(&transform);
    assert_eq!(bins.len(), 3995);
    assert_eq!(bins[0].bin, 5);
    assert_eq!(bins[bins.len() - 1].bin, 3999);
    for (k, b) in bins.iter().enumerate() {
        assert_eq!(b.bin, 5 + k);
        assert_eq!(b.amplitude, b.bin as u32);
    }
}

#[test]
fn analyze_short_window_drops_everything_inaudible() {
    // 8000 Hz over 8 samples: bins 0..4 at 0, 1000, 2000, 3000 Hz
    let a = SpectralAnalyzer::new(8000, 8);
    let bins = a.analyze(&vec![10u8, 11, 12, 13, 14, 15, 16, 17]);
    let got: Vec<(usize, u8)> = bins.iter().map(|b| (b.bin, b.amplitude)).collect();
    assert_eq!(got, vec![(1, 11), (2, 12), (3, 13)]);
}

#[test]
fn sine_at_440_hz_peaks_within_one_bin() {
    let len = window_length(44100, 5);
    assert_eq!(len, 8820);
    let mut acc: FrameAccumulator<f32> = FrameAccumulator::new(len);
    let samples: Vec<f32> = (0..len)
        .map(|i| (2.0 * std::f32::consts::PI * 440.0 * i as f32 / 44100.0).sin())
        .collect();
    let windows = acc.feed(&samples);
    assert_eq!(windows.len(), 1);

    let mut buf: Vec<Complex<f32>> = windows[0].iter().map(|&x| Complex::new(x, 0.0)).collect();
    let fft = FftPlanner::<f32>::new().plan_fft_forward(len);
    fft.process(&mut buf);

    let a = SpectralAnalyzer::new(44100, len);
    let bins = a.analyze(&buf);
    let peak = bins
        .iter()
        .max_by(|x, y| x.amplitude.norm().total_cmp(&y.amplitude.norm()))
        .unwrap();
    let freq = peak.bin as f32 * 44100.0 / len as f32;
    assert!((freq - 440.0).abs() <= 5.0, "peak at {freq} Hz");
}
