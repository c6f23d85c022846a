use hdrcapture::geometry::{
    client_box, window_geometry, ClientBox, Point, Rect, WindowGeometry, WindowProbe,
};

fn probe() -> WindowProbe {
    // A 816x639 window at (100, 50) whose client area of 800x600 starts 8
    // pixels right and 31 pixels down.
    WindowProbe {
        minimized: false,
        client_rect: Some(Rect { left: 0, top: 0, right: 800, bottom: 600 }),
        frame_bounds: Some(Rect { left: 100, top: 50, right: 916, bottom: 689 }),
        client_origin: Some(Point { x: 108, y: 81 }),
    }
}

#[test]
fn test_client_box_inside_frame() {
    let cut = client_box(&probe(), 816, 639);
    assert_eq!(cut, Some(ClientBox { left: 8, top: 31, right: 808, bottom: 631 }));
    let cut = cut.unwrap();
    assert_eq!((cut.width(), cut.height()), (800, 600));
}

#[test]
fn test_client_box_is_clipped_to_texture() {
    let cut = client_box(&probe(), 500, 400);
    assert_eq!(cut, Some(ClientBox { left: 8, top: 31, right: 500, bottom: 400 }));
}

#[test]
fn test_client_box_offset_never_negative() {
    let mut p = probe();
    p.client_origin = Some(Point { x: 90, y: 40 });
    let cut = client_box(&p, 816, 639);
    assert_eq!(cut, Some(ClientBox { left: 0, top: 0, right: 800, bottom: 600 }));
}

#[test]
fn test_client_box_none_when_minimized() {
    let mut p = probe();
    p.minimized = true;
    assert_eq!(client_box(&p, 816, 639), None);
    assert_eq!(window_geometry(&p, 816, 639), None);
}

#[test]
fn test_client_box_none_when_a_query_failed() {
    let mut p = probe();
    p.client_rect = None;
    assert_eq!(client_box(&p, 816, 639), None);
    let mut p = probe();
    p.frame_bounds = None;
    assert_eq!(client_box(&p, 816, 639), None);
    let mut p = probe();
    p.client_origin = None;
    assert_eq!(client_box(&p, 816, 639), None);
}

#[test]
fn test_client_box_none_for_empty_client_rect() {
    let mut p = probe();
    p.client_rect = Some(Rect { left: 0, top: 0, right: 0, bottom: 600 });
    assert_eq!(client_box(&p, 816, 639), None);
    p.client_rect = Some(Rect { left: 0, top: 0, right: 800, bottom: -1 });
    assert_eq!(client_box(&p, 816, 639), None);
}

#[test]
fn test_client_box_none_when_client_starts_outside_texture() {
    assert_eq!(client_box(&probe(), 8, 639), None);
    assert_eq!(client_box(&probe(), 816, 31), None);
    assert_eq!(client_box(&probe(), 0, 0), None);
    assert_eq!(
        client_box(&probe(), 9, 32),
        Some(ClientBox { left: 8, top: 31, right: 9, bottom: 32 })
    );
}

#[test]
fn test_client_box_extreme_coordinates() {
    let p = WindowProbe {
        minimized: false,
        client_rect: Some(Rect { left: 0, top: 0, right: i32::MAX, bottom: i32::MAX }),
        frame_bounds: Some(Rect { left: i32::MIN, top: i32::MIN, right: 0, bottom: 0 }),
        client_origin: Some(Point { x: i32::MAX, y: i32::MAX }),
    };
    assert_eq!(client_box(&p, u32::MAX, u32::MAX), None);
    let q = WindowProbe { client_origin: Some(Point { x: i32::MIN + 5, y: i32::MIN }), ..p };
    assert_eq!(
        client_box(&q, u32::MAX, 10),
        Some(ClientBox { left: 5, top: 0, right: 5 + i32::MAX as u32, bottom: 10 })
    );
}

#[test]
fn test_window_geometry_frame_size_and_box() {
    let geometry = window_geometry(&probe(), 816, 639);
    assert_eq!(
        geometry,
        Some(WindowGeometry {
            frame_width: 816,
            frame_height: 639,
            client_box: Some(ClientBox { left: 8, top: 31, right: 808, bottom: 631 }),
        })
    );
}

#[test]
fn test_window_geometry_without_client_answers() {
    let mut p = probe();
    p.client_origin = None;
    assert_eq!(
        window_geometry(&p, 816, 639),
        Some(WindowGeometry { frame_width: 816, frame_height: 639, client_box: None })
    );
}

#[test]
fn test_window_geometry_none_for_empty_bounds() {
    let mut p = probe();
    p.frame_bounds = Some(Rect { left: 100, top: 50, right: 100, bottom: 689 });
    assert_eq!(window_geometry(&p, 816, 639), None);
    p.frame_bounds = Some(Rect { left: 100, top: 50, right: 916, bottom: 40 });
    assert_eq!(window_geometry(&p, 816, 639), None);
}
