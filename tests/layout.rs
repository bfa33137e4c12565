use penrose::geometry::Region;
use penrose::layout::{client_breakdown, Change, Floating, Layout, LayoutConf, LayoutStrategy, RATIO_SCALE};

#[test]
fn layout_conf_default() {
    let c = LayoutConf::default();
    assert!(!c.floating && !c.gapless && !c.follow_focus && c.allow_wrapping);
}

#[test]
fn floating_layout_floats_every_window() {
    let l = Layout::floating("[----]");
    assert!(l.conf.floating);
    assert_eq!(l.symbol, "[----]");
    assert_eq!(l.max_main(), 1);
    assert_eq!(l.ratio(), RATIO_SCALE);
    let arr = l.arrange(&[3, 1, 2], Some(1), &Region::new(0, 0, 100, 100));
    assert!(arr.actions.is_empty());
    assert_eq!(arr.floating, vec![3, 1, 2]);
}

#[test]
fn floating_strategy_with_no_windows() {
    let arr = Floating.arrange(&[], None, &Region::default(), 1, 500);
    assert!(arr.actions.is_empty());
    assert!(arr.floating.is_empty());
}

#[test]
fn new_clamps_ratio() {
    let l = Layout::new("[side]", LayoutConf::default(), Floating, 1, 1500);
    assert_eq!(l.ratio(), RATIO_SCALE);
    let l = Layout::new("[side]", LayoutConf::default(), Floating, 2, 600);
    assert_eq!(l.ratio(), 600);
    assert_eq!(l.max_main(), 2);
}

#[test]
fn max_main_less_at_zero_stays_zero() {
    let mut l = Layout::new("t", LayoutConf::default(), Floating, 0, 600);
    l.update_max_main(Change::Less);
    assert_eq!(l.max_main(), 0);
}

#[test]
fn max_main_more_and_less() {
    let mut l = Layout::new("t", LayoutConf::default(), Floating, 1, 600);
    l.update_max_main(Change::More);
    assert_eq!(l.max_main(), 2);
    l.update_max_main(Change::Less);
    l.update_max_main(Change::Less);
    assert_eq!(l.max_main(), 0);
}

#[test]
fn ratio_steps_clamp_at_both_ends() {
    let mut l = Layout::new("t", LayoutConf::default(), Floating, 1, 600);
    l.update_main_ratio(Change::More, 50);
    assert_eq!(l.ratio(), 650);
    for _ in 0..20 {
        l.update_main_ratio(Change::More, 50);
        assert!(l.ratio() <= RATIO_SCALE);
    }
    assert_eq!(l.ratio(), RATIO_SCALE);
    for _ in 0..30 {
        l.update_main_ratio(Change::Less, 50);
    }
    assert_eq!(l.ratio(), 0);
    l.update_main_ratio(Change::Less, u32::MAX);
    assert_eq!(l.ratio(), 0);
    l.update_main_ratio(Change::More, u32::MAX);
    assert_eq!(l.ratio(), RATIO_SCALE);
}

#[test]
fn layouts_equal_ignoring_strategy_state() {
    let a = Layout::new("[----]", LayoutConf { floating: true, gapless: false, follow_focus: false, allow_wrapping: true }, Floating, 1, RATIO_SCALE);
    let b = Layout::floating("[----]");
    assert!(a == b);
    let mut c = Layout::floating("[----]");
    c.update_max_main(Change::More);
    assert!(c != b);
    let d = Layout::floating("[side]");
    assert!(d != b);
}

#[test]
fn breakdown_fewer_clients_than_main() {
    assert_eq!(client_breakdown(&[1, 2], 3), (2, 0));
}

#[test]
fn breakdown_more_clients_than_main() {
    assert_eq!(client_breakdown(&[1, 2, 3, 4, 5], 2), (2, 3));
}

#[test]
fn breakdown_empty_and_zero_main() {
    let empty: [u32; 0] = [];
    assert_eq!(client_breakdown(&empty, 4), (0, 0));
    assert_eq!(client_breakdown(&[1, 2, 3], 0), (0, 3));
}

#[test]
fn breakdown_sums_to_length() {
    let v = vec!['a'; 7];
    for n in 0..10u32 {
        let (m, s) = client_breakdown(&v, n);
        assert_eq!(m + s, 7);
        assert!(m <= n.min(7));
    }
}
