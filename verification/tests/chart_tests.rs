//! Chart model construction and metadata, and the CLI decision helper.

use suzu::chart::{ChartMetadata, ChartModel, ChartTransform, DisplayType, Point};
use suzu::cli::{Args, CliHelper};

#[test]
fn chart_new_computes_bounds_from_points() {
    let pts = vec![
        Point::new(3_000_000, -1_000_000),
        Point::new(-2_000_000, 5_000_000),
        Point::new(1_000_000, 0),
    ];
    let c = ChartModel::new(pts, DisplayType::Scatter, 7, "wave", Some(ChartTransform::Fft));
    assert_eq!(c.x_min, -2_000_000);
    assert_eq!(c.x_max, 3_000_000);
    assert_eq!(c.y_min, -1_070_000);
    assert_eq!(c.y_max, 5_070_000);
    assert_eq!(c.sample_rate, 7);
    assert_eq!(c.metadata.title, "wave");
    assert_eq!(c.metadata.transform, ChartTransform::Fft);
    assert_eq!(c.metadata.chart_display_type, DisplayType::Scatter);
}

#[test]
fn metadata_defaults_to_the_standard_transform() {
    let m = ChartMetadata::new("t", None, DisplayType::Line);
    assert_eq!(m.transform, ChartTransform::Standard);
    assert_eq!(m.description(), "Standard");
    let m = ChartMetadata::new("t", Some(ChartTransform::Stft), DisplayType::Line);
    assert_eq!(m.description(), "STFT");
    assert_eq!(
        ChartMetadata::new("t", Some(ChartTransform::WaveletHaar), DisplayType::Line).description(),
        "Haar"
    );
    assert_eq!(
        ChartMetadata::new("t", Some(ChartTransform::Filtered), DisplayType::Line).description(),
        "Filtered"
    );
    assert_eq!(
        ChartMetadata::new("t", Some(ChartTransform::Fft), DisplayType::Line).description(),
        "FFT"
    );
}

#[test]
fn pure_coordinates_mirror_the_points() {
    let pts = vec![Point::new(1, 2), Point::new(3, 4)];
    let c = ChartModel::new(pts, DisplayType::Line, 0, "t", None);
    assert_eq!(c.data_to_pure_coordinates(), vec![(1, 2), (3, 4)]);
}

#[test]
fn cli_decisions() {
    let h = CliHelper::new(Args { f: None, v: false, version: false, h: true, help: false });
    assert!(h.help());
    assert!(!h.version());
    assert!(h.requested_path().is_none());
    let h = CliHelper::new(Args {
        f: Some(String::from("/tmp/a.bin")),
        v: true,
        version: false,
        h: false,
        help: false,
    });
    assert!(h.version());
    assert!(!h.help());
    assert_eq!(h.requested_path().map(String::as_str), Some("/tmp/a.bin"));
}
