use mmlt::image::{ends_with, BoxFilter, ImageFormat};

#[test]
fn format_from_extension() {
    assert_eq!(ImageFormat::from_path("out.pfm"), Some(ImageFormat::Pfm));
    assert_eq!(ImageFormat::from_path("dir/out.exr"), Some(ImageFormat::Exr));
    assert_eq!(ImageFormat::from_path("out.ppm"), Some(ImageFormat::Ppm));
    assert_eq!(ImageFormat::from_path("outppm"), Some(ImageFormat::Ppm));
}

#[test]
fn format_unknown() {
    assert_eq!(ImageFormat::from_path("out.png"), None);
    assert_eq!(ImageFormat::from_path(""), None);
    assert_eq!(ImageFormat::from_path("pfm"), None);
}

#[test]
fn suffix_check() {
    assert!(ends_with("image.exr", ".exr"));
    assert!(ends_with("abc", ""));
    assert!(!ends_with("exr", ".exr"));
    assert!(!ends_with("image.exr", ".pfm"));
}

#[test]
fn box_filter_builds() {
    let _filter = BoxFilter::new();
}
