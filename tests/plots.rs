use spectrogram::{oscilloscope_trace, spectrum_bars, Ratio};

#[test]
fn spectrum_bar_geometry() {
    let bars = spectrum_bars(&vec![255, 0, 51, 102], 200, 100);
    assert_eq!(bars.len(), 4);
    assert_eq!(bars[0].x, Ratio::new(0, 4));
    assert_eq!(bars[0].width, Ratio::new(200, 4));
    assert_eq!(bars[0].height, Ratio::new(25500, 255));
    assert_eq!(bars[0].y, Ratio::new(0, 255));
    assert_eq!(bars[0].hue, Ratio::new(0, 4));
    assert_eq!(bars[1].height, Ratio::new(0, 255));
    assert_eq!(bars[1].y, Ratio::new(25500, 255));
    assert_eq!(bars[2].height, Ratio::new(5100, 255));
    assert_eq!(bars[2].y, Ratio::new(20400, 255));
    assert_eq!(bars[3].x, Ratio::new(600, 4));
    assert_eq!(bars[3].hue, Ratio::new(1080, 4));
}

#[test]
fn spectrum_of_empty_frame() {
    assert!(spectrum_bars(&vec![], 200, 100).is_empty());
    assert!(oscilloscope_trace(&vec![], 200, 100).is_empty());
}

#[test]
fn oscilloscope_geometry() {
    let points = oscilloscope_trace(&vec![128, 0, 255], 300, 50);
    assert_eq!(points.len(), 3);
    assert!(points[0].starts_path);
    assert!(!points[1].starts_path);
    assert!(!points[2].starts_path);
    assert_eq!(points[0].x, Ratio::new(0, 3));
    assert_eq!(points[0].y, Ratio::new(6400, 128));
    assert_eq!(points[1].x, Ratio::new(300, 3));
    assert_eq!(points[1].y, Ratio::new(0, 128));
    assert_eq!(points[2].x, Ratio::new(600, 3));
    assert_eq!(points[2].y, Ratio::new(12750, 128));
}

#[test]
fn drawing_twice_gives_the_same_plots() {
    let samples: Vec<u8> = (0..64u32).map(|i| (i * 4) as u8).collect();
    let magnitudes: Vec<u8> = (0..64u32).map(|i| (255 - i * 3) as u8).collect();
    let first = (oscilloscope_trace(&samples, 640, 120), spectrum_bars(&magnitudes, 640, 120));
    let second = (oscilloscope_trace(&samples, 640, 120), spectrum_bars(&magnitudes, 640, 120));
    assert_eq!(first, second);
}
