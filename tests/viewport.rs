use miye::viewport::{AspectRatio, Extent, Viewport};

#[test]
fn resize_sets_exact_aspect_ratio() {
    let mut v = Viewport::new(800, 600);
    v.resize(1920, 1080);
    assert_eq!(v.aspect_ratio(), AspectRatio { num: 1920, den: 1080 });
    assert_eq!(v.surface(), Extent { width: 1920, height: 1080 });
    assert_eq!(v.depth(), Extent { width: 1920, height: 1080 });
}

#[test]
fn resize_twice_to_current_size_changes_nothing() {
    let mut once = Viewport::new(640, 480);
    once.resize(640, 480);
    let mut twice = Viewport::new(640, 480);
    twice.resize(640, 480);
    twice.resize(640, 480);
    assert_eq!(once.aspect_ratio(), twice.aspect_ratio());
    assert_eq!(once.depth(), twice.depth());
    assert_eq!(twice.depth(), Extent { width: 640, height: 480 });
}

#[test]
fn zero_height_is_clamped_to_one() {
    let mut v = Viewport::new(300, 0);
    assert_eq!(v.surface(), Extent { width: 300, height: 1 });
    v.resize(1024, 0);
    assert_eq!(v.surface(), Extent { width: 1024, height: 1 });
    assert_eq!(v.depth(), Extent { width: 1024, height: 1 });
    assert_eq!(v.aspect_ratio(), AspectRatio { num: 1024, den: 1 });
}

#[test]
fn depth_buffer_follows_every_resize() {
    let mut v = Viewport::new(10, 10);
    v.resize(33, 77);
    assert_eq!(v.depth(), v.surface());
    v.resize(5, 2);
    assert_eq!(v.depth(), Extent { width: 5, height: 2 });
}
