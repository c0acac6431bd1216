use mmlt::path::InteractionKind::{Camera, Light, Object};
use mmlt::path::{weight_walk, PathType, Strategy, Technique, Vertex};

#[test]
fn test_technique_path_type() {
    let technique = Technique::new(2, 2);
    assert_eq!(technique.path_type(0), PathType::Camera);
    assert_eq!(technique.path_type(1), PathType::Camera);
    assert_eq!(technique.path_type(2), PathType::Light);
    assert_eq!(technique.path_type(3), PathType::Light);
}

#[test]
fn test_technique_sample() {
    // Uniform numbers 0.0, 0.5 and 0.99 scaled to [0, 3) draw 0, 1 and 2.
    let technique = Technique::sample(2, 0);
    assert_eq!(technique.camera(), 0);
    assert_eq!(technique.light(), 2);

    let technique = Technique::sample(2, 1);
    assert_eq!(technique.camera(), 1);
    assert_eq!(technique.light(), 1);

    let technique = Technique::sample(2, 2);
    assert_eq!(technique.camera(), 2);
    assert_eq!(technique.light(), 0);
}

#[test]
fn technique_split_sums_to_path_length() {
    for path_length in 0..12usize {
        for draw in 0..16usize {
            let t = Technique::sample(path_length, draw);
            assert_eq!(t.camera() + t.light(), path_length);
            assert!(t.camera() <= path_length);
        }
    }
}

#[test]
fn technique_draw_past_end_is_held() {
    let t = Technique::sample(3, 4);
    assert_eq!(t.camera(), 3);
    assert_eq!(t.light(), 0);
    let t = Technique::sample(0, 0);
    assert_eq!(t.camera(), 0);
    assert_eq!(t.light(), 0);
}

#[test]
fn strategy_per_split() {
    assert_eq!(Technique::new(0, 3).strategy(), Strategy::FullLightPath);
    assert_eq!(Technique::new(3, 0).strategy(), Strategy::FullCameraPath);
    assert_eq!(Technique::new(1, 1).strategy(), Strategy::CameraToLight);
    assert_eq!(Technique::new(1, 2).strategy(), Strategy::CameraToLightSubpath);
    assert_eq!(Technique::new(2, 1).strategy(), Strategy::CameraSubpathToLight);
    assert_eq!(Technique::new(2, 2).strategy(), Strategy::CameraSubpathToLightSubpath);
    assert_eq!(Technique::new(0, 0).strategy(), Strategy::FullLightPath);
}

fn vertex(forward: Option<f64>, reverse: Option<f64>) -> Vertex<(), f64> {
    Vertex {
        throughput: (),
        forward_pdf: forward,
        reverse_pdf: reverse,
    }
}

#[test]
fn weight_walk_orders_from_the_connection() {
    let vertices = vec![
        vertex(Some(1.0), Some(0.5)),
        vertex(Some(2.0), Some(0.25)),
        vertex(Some(3.0), Some(4.0)),
        vertex(Some(0.5), Some(2.0)),
    ];
    let (camera_side, light_side) = weight_walk(&Technique::new(2, 2), &vertices);
    assert_eq!(camera_side, vec![1, 0]);
    assert_eq!(light_side, vec![2, 3]);
}

#[test]
fn weight_walk_skips_dirac_vertices() {
    let vertices = vec![
        vertex(Some(1.0), Some(0.5)),
        vertex(Some(2.0), None),
        vertex(None, Some(4.0)),
        vertex(Some(0.5), Some(2.0)),
    ];
    let (camera_side, light_side) = weight_walk(&Technique::new(2, 2), &vertices);
    assert_eq!(camera_side, vec![0]);
    assert_eq!(light_side, vec![3]);
}

#[test]
fn weight_walk_without_light_vertices() {
    let vertices = vec![
        vertex(Some(1.0), Some(0.5)),
        vertex(Some(2.0), Some(1.0)),
        vertex(Some(3.0), Some(4.0)),
    ];
    let (camera_side, light_side) = weight_walk(&Technique::new(3, 0), &vertices);
    assert_eq!(camera_side, vec![2, 1, 0]);
    assert!(light_side.is_empty());
    let (camera_side, light_side) = weight_walk(&Technique::new(0, 3), &vertices);
    assert!(camera_side.is_empty());
    assert_eq!(light_side, vec![0, 1, 2]);
}

#[test]
fn dirac_path_has_no_ratios() {
    let vertices = vec![
        vertex(Some(1.0), None),
        vertex(None, None),
        vertex(None, Some(0.3)),
    ];
    let (camera_side, light_side) = weight_walk(&Technique::new(1, 2), &vertices);
    assert!(camera_side.is_empty());
    assert!(light_side.is_empty());
}

#[test]
fn subpath_end_rules() {
    assert!(Strategy::FullLightPath.accepts_end(PathType::Light, Camera));
    assert!(!Strategy::FullLightPath.accepts_end(PathType::Light, Object));
    assert!(Strategy::FullCameraPath.accepts_end(PathType::Camera, Light));
    assert!(!Strategy::FullCameraPath.accepts_end(PathType::Camera, Camera));
    assert!(Strategy::CameraToLightSubpath.accepts_end(PathType::Light, Object));
    assert!(!Strategy::CameraToLightSubpath.accepts_end(PathType::Light, Light));
    assert!(Strategy::CameraSubpathToLight.accepts_end(PathType::Camera, Object));
    assert!(!Strategy::CameraSubpathToLight.accepts_end(PathType::Camera, Light));
    assert!(Strategy::CameraSubpathToLightSubpath.accepts_end(PathType::Camera, Object));
    assert!(!Strategy::CameraSubpathToLightSubpath.accepts_end(PathType::Light, Light));
    assert!(Strategy::CameraToLight.accepts_end(PathType::Camera, Light));
}

#[test]
fn connection_hit_rules() {
    assert!(Strategy::CameraToLight.accepts_hit(Camera));
    assert!(!Strategy::CameraToLight.accepts_hit(Object));
    assert!(Strategy::CameraToLightSubpath.accepts_hit(Camera));
    assert!(Strategy::CameraSubpathToLight.accepts_hit(Light));
    assert!(!Strategy::CameraSubpathToLight.accepts_hit(Camera));
    assert!(Strategy::CameraSubpathToLightSubpath.accepts_hit(Object));
    assert!(!Strategy::CameraSubpathToLightSubpath.accepts_hit(Light));
    assert!(Strategy::FullLightPath.accepts_hit(Light));
}
