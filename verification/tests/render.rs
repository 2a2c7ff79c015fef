use tracer::cie::{classify_bin, BinPlacement};
use tracer::demo::CornellBox;
use tracer::render::progress_percent;

#[test]
fn progress_runs_to_one_hundred() {
    assert_eq!(progress_percent(0, 8), 0);
    assert_eq!(progress_percent(1, 8), 12);
    assert_eq!(progress_percent(4, 8), 50);
    assert_eq!(progress_percent(8, 8), 100);
}

#[test]
fn progress_of_huge_layer_counts() {
    assert_eq!(progress_percent(u32::MAX, u32::MAX), 100);
    assert_eq!(progress_percent(u32::MAX / 2, u32::MAX), 49);
}

#[test]
fn wavelengths_outside_the_table_are_zero() {
    assert_eq!(classify_bin(-2, 81), BinPlacement::Outside);
    assert_eq!(classify_bin(81, 81), BinPlacement::Outside);
    assert_eq!(classify_bin(1000, 81), BinPlacement::Outside);
    assert_eq!(classify_bin(i64::MIN, 81), BinPlacement::Outside);
}

#[test]
fn boundary_bins_fade() {
    assert_eq!(classify_bin(-1, 81), BinPlacement::FadeIn);
    assert_eq!(classify_bin(80, 81), BinPlacement::FadeOut);
}

#[test]
fn interior_bins_interpolate() {
    assert_eq!(classify_bin(0, 81), BinPlacement::Interior { bin: 0 });
    assert_eq!(classify_bin(40, 81), BinPlacement::Interior { bin: 40 });
    assert_eq!(classify_bin(79, 81), BinPlacement::Interior { bin: 79 });
}

#[test]
fn demo_scene_is_nameable() {
    let _demo = CornellBox::new();
}
