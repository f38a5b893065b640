use inox2d_wgpu::surface::{choose_surface_format, composite_targets_stale, Viewport};

#[test]
fn first_non_srgb_format_is_chosen() {
    assert_eq!(choose_surface_format(&[true, false, false]), 1);
    assert_eq!(choose_surface_format(&[false, true]), 0);
}

#[test]
fn all_srgb_falls_back_to_the_first_format() {
    assert_eq!(choose_surface_format(&[true, true]), 0);
    assert_eq!(choose_surface_format(&[true]), 0);
}

#[test]
fn zero_sized_resizes_are_ignored() {
    let mut v = Viewport { width: 800, height: 600 };
    assert!(!v.resize(0, 600));
    assert!(!v.resize(1024, 0));
    assert_eq!(v, Viewport { width: 800, height: 600 });
    assert!(v.resize(1024, 768));
    assert_eq!(v, Viewport { width: 1024, height: 768 });
}

#[test]
fn composite_targets_follow_the_viewport() {
    let v = Viewport { width: 640, height: 480 };
    assert!(composite_targets_stale(None, v));
    assert!(!composite_targets_stale(Some((640, 480)), v));
    assert!(composite_targets_stale(Some((640, 481)), v));
    assert!(composite_targets_stale(Some((639, 480)), v));
}
