use meteo_station::geometry::{chart_transmit_size, compass_size_px, compass_target_rect, CellRect};

#[test]
fn chart_size_kept_when_small() {
    assert_eq!(chart_transmit_size(40, 10, 10, 20), (400, 200));
    assert_eq!(chart_transmit_size(0, 0, 10, 20), (0, 0));
}

#[test]
fn chart_size_capped_keeping_aspect() {
    assert_eq!(chart_transmit_size(200, 50, 9, 18), (800, 400));
    assert_eq!(chart_transmit_size(1, 200, 1, 10), (1, 800));
}

#[test]
fn compass_centred_in_panel() {
    let area = CellRect { x: 10, y: 5, width: 40, height: 12 };
    assert_eq!(compass_size_px(area, 8, 16), 192);
    let t = compass_target_rect(area, 8, 16);
    assert_eq!(t, CellRect { x: 18, y: 5, width: 24, height: 12 });
    let t = compass_target_rect(area, 0, 0);
    assert_eq!(t, CellRect { x: 29, y: 10, width: 1, height: 1 });
}
