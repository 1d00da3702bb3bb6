use actiona::displays::{point_for_draw, try_point, DisplayInfo, Displays, DisplaysError};
use actiona::geometry::{point, size, Rect};
use actiona::js_displays::{DisplaySelector, JsDisplayInfo, JsDisplays};

fn make_display(id: u32, x: i32, y: i32, w: u32, h: u32) -> DisplayInfo {
    DisplayInfo {
        id,
        name: id.to_string(),
        friendly_name: id.to_string(),
        rect: Rect::new(point(x, y), size(w, h)),
        width_mm: 0,
        height_mm: 0,
        is_primary: false,
    }
}

fn with_displays(infos: Vec<DisplayInfo>) -> Displays {
    Displays::new(infos)
}

#[test]
fn empty_returns_none_for_all() {
    let d = with_displays(vec![]);
    assert!(d.leftmost().is_none());
    assert!(d.rightmost().is_none());
    assert!(d.topmost().is_none());
    assert!(d.bottommost().is_none());
    assert!(d.center().is_none());
}

#[test]
fn single_display_returned_for_all() {
    let d = with_displays(vec![make_display(1, 100, 200, 1920, 1080)]);
    assert_eq!(Some(1), d.leftmost().map(|d| d.id));
    assert_eq!(Some(1), d.rightmost().map(|d| d.id));
    assert_eq!(Some(1), d.topmost().map(|d| d.id));
    assert_eq!(Some(1), d.bottommost().map(|d| d.id));
    assert_eq!(Some(1), d.center().map(|d| d.id));
}

#[test]
fn leftmost() {
    let cases = vec![
        // negative x: id 2 has the smallest left edge
        (
            vec![
                make_display(1, 100, 0, 1920, 1080),
                make_display(2, -500, 0, 1920, 1080),
                make_display(3, 200, 0, 1920, 1080),
            ],
            2,
        ),
        // positive only: the leftmost edge wins, not the narrowest display
        (
            vec![
                make_display(1, 300, 0, 1920, 1080),
                make_display(2, 0, 0, 1920, 1080),
                make_display(3, 150, 0, 1920, 1080),
            ],
            2,
        ),
    ];
    for (infos, want_id) in cases {
        let d = with_displays(infos);
        assert_eq!(Some(want_id), d.leftmost().map(|d| d.id));
    }
}

#[test]
fn rightmost() {
    let cases = vec![
        (
            vec![
                make_display(1, 0, 0, 1920, 1080),
                make_display(2, 2000, 0, 800, 1080),
                make_display(3, -100, 0, 200, 1080),
            ],
            2,
        ),
        (
            vec![
                make_display(1, 0, 0, 1920, 1080),
                make_display(2, 1920, 0, 1920, 1080),
                make_display(3, 3840, 0, 1920, 1080),
            ],
            3,
        ),
    ];
    for (infos, want_id) in cases {
        let d = with_displays(infos);
        assert_eq!(Some(want_id), d.rightmost().map(|d| d.id));
    }
}

#[test]
fn topmost() {
    let infos = vec![
        make_display(1, 0, 0, 1920, 1080),
        make_display(2, 0, -200, 1920, 1080),
        make_display(3, 0, 500, 1920, 1080),
    ];
    let d = with_displays(infos);
    assert_eq!(Some(2), d.topmost().map(|d| d.id));
}

#[test]
fn bottommost() {
    let infos = vec![
        make_display(1, 0, 0, 1920, 1080),
        make_display(2, 0, 500, 1920, 800),
        make_display(3, 0, -100, 1920, 400),
    ];
    let d = with_displays(infos);
    assert_eq!(Some(2), d.bottommost().map(|d| d.id));
}

#[test]
fn center() {
    let cases = vec![
        (
            vec![
                make_display(1, 0, 0, 1920, 1080),
                make_display(2, 1920, 0, 1920, 1080),
                make_display(3, 3840, 0, 1920, 1080),
            ],
            2,
        ),
        (
            vec![
                make_display(1, -1920, 0, 1920, 1080),
                make_display(2, 0, 0, 3840, 1080),
                make_display(3, 3840, 0, 1920, 1080),
            ],
            2,
        ),
    ];
    for (infos, want_id) in cases {
        let d = with_displays(infos);
        assert_eq!(Some(want_id), d.center().map(|d| d.id));
    }
}

#[test]
fn test_random_point() {
    let displays = JsDisplays::new(with_displays(vec![
        make_display(1, 0, 0, 1920, 1080),
        make_display(2, 1920, 0, 1280, 1024),
    ]));
    let point = displays.random_point().unwrap();
    assert!(point.x.value >= 0 && point.x.value < 3200);
    assert!(point.y.value >= 0 && point.y.value < 1080);
}

#[test]
fn largest_smallest_primary_and_lookups() {
    let d = |id: u32, name: &str, friendly: &str, x: i32, w: u32| DisplayInfo {
        id,
        name: name.to_string(),
        friendly_name: friendly.to_string(),
        rect: Rect::new(point(x, 0), size(w, 10)),
        width_mm: 1,
        height_mm: 2,
        is_primary: id == 2,
    };
    let infos = vec![d(1, "DP-1", "Left", 0, 10), d(2, "DP-2", "Right", 10, 20), d(3, "DP-3", "Far", 30, 10)];
    let displays = with_displays(infos.clone());
    assert_eq!(displays.primary().unwrap().id, 2);
    assert_eq!(displays.largest().unwrap().id, 2);
    // ties: smallest takes the first, largest the last
    assert_eq!(displays.smallest().unwrap().id, 1);
    assert_eq!(displays.from_point(point(15, 5)).unwrap().id, 2);
    assert!(displays.from_point(point(15, 10)).is_none());
    assert_eq!(displays.all().len(), 3);
    let no_primary = with_displays(vec![make_display(1, 0, 0, 10, 10)]);
    assert_eq!(no_primary.primary().err(), Some(DisplaysError::NoPrimaryDisplay));

    let js = JsDisplays::new(with_displays(infos));
    assert_eq!(js.from_name(&"Right".to_string()).unwrap().id(), 2);
    assert_eq!(js.from_device_name(&"DP-1".to_string()).unwrap().id(), 1);
    assert!(js.from_name(&"Nowhere".to_string()).is_none());
    assert_eq!(js.from_id(3).unwrap().friendly_name(), "Far");
    assert!(js.from_id(4).is_none());
    assert_eq!(js.largest().unwrap().id(), 2);
    assert_eq!(js.smallest().unwrap().id(), 1);
    assert_eq!(js.from_point(point(35, 0)).unwrap().id(), 3);
    let ids: Vec<u32> = js.all().iter().map(|d| d.id()).collect();
    assert_eq!(ids, vec![1, 2, 3]);
    for _ in 0..50 {
        let p = js.random_point().unwrap();
        assert!(p.x.value >= 0 && p.x.value < 40 && p.y.value >= 0 && p.y.value < 10);
    }
    let empty = with_displays(vec![make_display(3, 0, 0, 0, 0)]);
    assert_eq!(empty.random_point().err(), Some(DisplaysError::NoDisplaysDetected));
    assert_eq!(try_point(i64::from(i32::MAX) + 1, 0).err(), Some(DisplaysError::PointOutOfRange));
    assert_eq!(DisplaySelector::Leftmost.to_display_string(), "(leftmost)");
    assert_eq!(DisplaySelector::ById(7).to_display_string(), "(id: 7)");
    assert_eq!(DisplaySelector::FromPoint(point(-1, 2)).to_display_string(), "(point: (x: -1, y: 2))");
    let info = JsDisplayInfo::new(d(2, "DP-2", "Right", 10, 20));
    assert_eq!(
        (info.id(), info.name(), info.friendly_name(), info.width_mm(), info.height_mm(), info.is_primary()),
        (2, "DP-2", "Right", 1, 2, true)
    );
    assert_eq!(info.rect().top_left.x.value, 10);
}

#[test]
fn draws_pick_a_display_and_a_point_in_it() {
    let infos = vec![make_display(1, 0, 0, 10, 10), make_display(2, 0, 0, 0, 5), make_display(3, 100, 50, 20, 10)];
    // The first display covers draws 0..100, the empty one none, the third 100..300.
    assert_eq!(point_for_draw(&infos, 0, 3, 4), Ok(point(3, 4)));
    assert_eq!(point_for_draw(&infos, 99, 9, 9), Ok(point(9, 9)));
    assert_eq!(point_for_draw(&infos, 100, 0, 0), Ok(point(100, 50)));
    assert_eq!(point_for_draw(&infos, 299, 19, 9), Ok(point(119, 59)));
    assert_eq!(point_for_draw(&infos, 300, 0, 0), Err(DisplaysError::NoDisplaysDetected));
    let edge = vec![make_display(1, i32::MAX, 0, 10, 10)];
    assert_eq!(point_for_draw(&edge, 0, 1, 0), Err(DisplaysError::PointOutOfRange));
    let displays = with_displays(infos);
    for _ in 0..50 {
        let p = displays.random_point().unwrap();
        let x = p.x.value;
        let y = p.y.value;
        assert!(((0..10).contains(&x) && (0..10).contains(&y)) || ((100..120).contains(&x) && (50..60).contains(&y)));
    }
}
