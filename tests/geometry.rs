use std::cell::RefCell;
use std::collections::HashMap;

use penrose::geometry::{floating_region, pad_region, Region};
use penrose::manager::position_floating_client;
use penrose::xconnection::{XConn, XError};
use penrose::Xid;

struct TestXConn {
    geometry: RefCell<HashMap<Xid, Region>>,
    refuse_placement: bool,
}

impl TestXConn {
    fn new() -> Self {
        TestXConn { geometry: RefCell::new(HashMap::new()), refuse_placement: false }
    }
}

impl XConn for TestXConn {
    fn client_geometry(&self, id: Xid) -> Result<Region, XError> {
        self.geometry.borrow().get(&id).copied().ok_or(XError { message: "unknown window".to_string() })
    }

    fn position_client(&mut self, id: Xid, r: Region, _border_px: u32, _stack_above: bool) -> Result<(), XError> {
        if self.refuse_placement {
            return Err(XError { message: "placement refused".to_string() });
        }
        self.geometry.borrow_mut().insert(id, r);
        Ok(())
    }

    fn map_client(&mut self, _id: Xid) -> Result<(), XError> {
        Ok(())
    }

    fn unmap_client(&mut self, _id: Xid) -> Result<(), XError> {
        Ok(())
    }

    fn raise_client(&mut self, _id: Xid) -> Result<(), XError> {
        Ok(())
    }
}

#[test]
fn pad_region_centered() {
    let r = Region::new(0, 0, 200, 100);
    let g = 10;
    let b = 3;
    assert_eq!(pad_region(&r, false, g, b), Region::new(10, 10, 174, 74));
    assert_eq!(pad_region(&r, true, g, b), Region::new(0, 0, 194, 94));
}

#[test]
fn pad_region_tiny() {
    let r = Region::new(0, 0, 3, 3);
    let g = 10;
    let b = 3;
    assert_eq!(pad_region(&r, false, g, b), r);
    assert_eq!(pad_region(&r, true, g, b), r);
}

#[test]
fn position_floating() {
    let mut conn = TestXConn::new();
    conn.position_client(0, Region::new(0, 0, 400, 300), 2, false).unwrap();

    position_floating_client(&mut conn, 0, Region::default(), 2).unwrap();

    assert_eq!(conn.client_geometry(0).unwrap(), Region::new(2, 2, 396, 296));
}

#[test]
fn position_floating_tiny() {
    let mut conn = TestXConn::new();
    conn.position_client(0, Region::new(0, 0, 4, 3), 2, false).unwrap();

    position_floating_client(&mut conn, 0, Region::default(), 2).unwrap();

    assert_eq!(conn.client_geometry(0).unwrap(), Region::new(0, 0, 4, 3));
}

#[test]
fn position_floating_unknown_window_fails() {
    let mut conn = TestXConn::new();
    assert!(position_floating_client(&mut conn, 7, Region::default(), 2).is_err());
}

#[test]
fn pad_region_shifts_and_shrinks_with_offset_origin() {
    let r = Region::new(100, 50, 300, 200);
    assert_eq!(pad_region(&r, false, 5, 2), Region::new(105, 55, 286, 186));
}

#[test]
fn pad_region_gapless_matches_zero_gap() {
    let r = Region::new(7, 9, 60, 40);
    assert_eq!(pad_region(&r, true, 12, 4), pad_region(&r, false, 0, 4));
    assert_eq!(pad_region(&r, true, 12, 4), Region::new(7, 9, 52, 32));
}

#[test]
fn pad_region_dimension_equal_to_padding_is_unchanged() {
    let r = Region::new(0, 0, 26, 500);
    assert_eq!(pad_region(&r, false, 10, 3), r);
    let r = Region::new(0, 0, 500, 26);
    assert_eq!(pad_region(&r, false, 10, 3), r);
}

#[test]
fn pad_region_gapless_pads_where_gap_would_not_fit() {
    let r = Region::new(0, 0, 10, 10);
    assert_eq!(pad_region(&r, false, 10, 3), r);
    assert_eq!(pad_region(&r, true, 10, 3), Region::new(0, 0, 4, 4));
}

#[test]
fn pad_region_huge_padding_is_unchanged() {
    let r = Region::new(0, 0, 200, 100);
    assert_eq!(pad_region(&r, false, u32::MAX, u32::MAX), r);
}

#[test]
fn floating_region_clamps_to_screen_origin() {
    let g = Region::new(10, 20, 100, 80);
    let screen = Region::new(50, 60, 1000, 800);
    assert_eq!(floating_region(g, screen, 2), Region::new(52, 62, 96, 76));
}

#[test]
fn floating_region_keeps_origin_inside_screen() {
    let g = Region::new(300, 400, 100, 80);
    let screen = Region::new(50, 60, 1000, 800);
    assert_eq!(floating_region(g, screen, 0), Region::new(300, 400, 100, 80));
}

#[test]
fn floating_region_zero_size_is_kept() {
    let g = Region::new(5, 5, 0, 0);
    assert_eq!(floating_region(g, Region::default(), 0), Region::new(5, 5, 0, 0));
    assert_eq!(floating_region(g, Region::default(), 1), Region::new(5, 5, 0, 0));
}

#[test]
fn region_values_and_point() {
    let r = Region::new(1, 2, 3, 4);
    assert_eq!(r.values(), (1, 2, 3, 4));
    let p = penrose::geometry::Point::new(8, 9);
    assert_eq!((p.x, p.y), (8, 9));
}

#[test]
fn position_floating_failed_placement_is_returned() {
    let mut conn = TestXConn::new();
    conn.position_client(0, Region::new(10, 10, 50, 50), 2, false).unwrap();
    conn.refuse_placement = true;
    let r = position_floating_client(&mut conn, 0, Region::default(), 2);
    assert_eq!(r, Err(XError { message: "placement refused".to_string() }));
    assert_eq!(conn.client_geometry(0).unwrap(), Region::new(10, 10, 50, 50));
}
