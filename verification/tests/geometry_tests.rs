use xplm_egui::geometry::HostPoint;
use xplm_egui::geometry::LogicalPoint;
use xplm_egui::geometry::WindowGeometry;
use xplm_egui::geometry::host_to_logical;
use xplm_egui::geometry::logical_to_host;

fn sample_geometry() -> WindowGeometry {
    WindowGeometry { left: 0, top: 600, right: 800, bottom: 0 }
}

#[test]
fn host_to_logical_flips_vertical_axis() {
    let geo = sample_geometry();
    let p = host_to_logical(HostPoint { x: 100, y: 500 }, geo);
    assert_eq!(p, LogicalPoint { x: 100, y: 100 });
}

#[test]
fn host_to_logical_respects_left_edge() {
    let geo = WindowGeometry { left: 50, top: 400, right: 650, bottom: 100 };
    let p = host_to_logical(HostPoint { x: 60, y: 395 }, geo);
    assert_eq!(p, LogicalPoint { x: 10, y: 5 });
}

#[test]
fn round_trip_host_logical_host_is_exact() {
    let geo = WindowGeometry { left: -20, top: 1080, right: 1900, bottom: 40 };
    let points = vec![
        HostPoint { x: 0, y: 0 },
        HostPoint { x: -20, y: 1080 },
        HostPoint { x: 345, y: 701 },
        HostPoint { x: 1900, y: 40 },
    ];
    for p in points {
        let back = logical_to_host(host_to_logical(p, geo), geo);
        assert_eq!(back, p);
    }
}

#[test]
fn round_trip_logical_host_logical_is_exact() {
    let geo = sample_geometry();
    let q = LogicalPoint { x: 123, y: 456 };
    assert_eq!(host_to_logical(logical_to_host(q, geo), geo), q);
}

#[test]
fn width_and_height_come_from_the_edges() {
    let geo = WindowGeometry { left: 10, top: 110, right: 210, bottom: 30 };
    assert_eq!(geo.width(), 200);
    assert_eq!(geo.height(), 80);
}
