use actiona::durations::{JsDuration, TimeSpan};
use actiona::geometry::point;
use actiona::mouse::{
    ClickOptions, Coordinate, DoubleClickOptions, JsButton, Mouse, MouseAction, PressOptions,
};

fn run(mouse: &mut Mouse, steps: &[MouseAction]) {
    for step in steps {
        mouse.apply(*step);
    }
}

fn millis(ms: u64) -> JsDuration {
    JsDuration(TimeSpan::from_millis(ms))
}

#[test]
fn press_is_remembered_and_not_repeated() {
    let mut mouse = Mouse::new();
    let options = PressOptions { button: JsButton::Left, position: Some(point(5, 6)), relative_position: false };
    let steps = mouse.press(options);
    assert_eq!(
        steps,
        vec![
            MouseAction::MoveTo(point(5, 6), Coordinate::Abs),
            MouseAction::Press(JsButton::Left),
            MouseAction::Remember(JsButton::Left),
        ]
    );
    run(&mut mouse, &steps);
    assert!(mouse.is_pressed(JsButton::Left));
    assert!(mouse.press(options).is_empty());
    let relative = PressOptions { button: JsButton::Right, position: Some(point(1, 1)), relative_position: true };
    assert_eq!(mouse.press(relative)[0], MouseAction::MoveTo(point(1, 1), Coordinate::Rel));
}

#[test]
fn release_picks_the_given_or_the_last_button() {
    let mut mouse = Mouse::new();
    for button in [JsButton::Left, JsButton::Middle] {
        let steps = mouse.press(PressOptions { button, ..PressOptions::default() });
        run(&mut mouse, &steps);
    }
    assert!(mouse.release(Some(JsButton::Right)).is_empty());
    let steps = mouse.release(Some(JsButton::Left));
    assert_eq!(steps, vec![MouseAction::Release(JsButton::Left), MouseAction::Forget(JsButton::Left)]);
    assert!(mouse.is_pressed(JsButton::Left));
    run(&mut mouse, &steps);
    assert!(!mouse.is_pressed(JsButton::Left));
    let steps = mouse.release(None);
    assert_eq!(steps, vec![MouseAction::Release(JsButton::Middle), MouseAction::Forget(JsButton::Middle)]);
    assert!(!mouse.is_pressed(JsButton::Middle));
    assert!(mouse.release(None).is_empty());
}

#[test]
fn plain_click() {
    let mouse = Mouse::new();
    assert_eq!(
        mouse.click(ClickOptions::default()),
        vec![MouseAction::Click(JsButton::Left), MouseAction::Forget(JsButton::Left)]
    );
    let none = ClickOptions { amount: 0, press: PressOptions { position: Some(point(2, 3)), ..PressOptions::default() }, ..ClickOptions::default() };
    assert_eq!(mouse.click(none), vec![MouseAction::MoveTo(point(2, 3), Coordinate::Abs)]);
}

#[test]
fn held_button_is_not_pressed_again_by_a_long_click() {
    let mut mouse = Mouse::new();
    let steps = mouse.press(PressOptions::default());
    run(&mut mouse, &steps);
    let options = ClickOptions { amount: 2, interval: millis(30), duration: millis(20), ..ClickOptions::default() };
    let steps = mouse.click(options);
    assert_eq!(
        steps,
        vec![
            MouseAction::Sleep(TimeSpan::from_millis(20)),
            MouseAction::Release(JsButton::Left),
            MouseAction::Forget(JsButton::Left),
            MouseAction::Sleep(TimeSpan::from_millis(30)),
            MouseAction::Press(JsButton::Left),
            MouseAction::Sleep(TimeSpan::from_millis(20)),
            MouseAction::Release(JsButton::Left),
            MouseAction::Forget(JsButton::Left),
        ]
    );
    run(&mut mouse, &steps);
    assert!(!mouse.is_pressed(JsButton::Left));
}

#[test]
fn double_click_waits_between_clicks() {
    let mouse = Mouse::new();
    assert_eq!(
        mouse.double_click(DoubleClickOptions::default()),
        vec![
            MouseAction::Click(JsButton::Left),
            MouseAction::Forget(JsButton::Left),
            MouseAction::Sleep(TimeSpan::from_millis(250)),
            MouseAction::Click(JsButton::Left),
            MouseAction::Forget(JsButton::Left),
        ]
    );
}

#[test]
fn double_long_click_on_a_held_button_presses_it_the_second_time() {
    let mut mouse = Mouse::new();
    let steps = mouse.press(PressOptions { button: JsButton::Back, ..PressOptions::default() });
    run(&mut mouse, &steps);
    let click = ClickOptions {
        press: PressOptions { button: JsButton::Back, ..PressOptions::default() },
        duration: millis(5),
        ..ClickOptions::default()
    };
    let steps = mouse.double_click(DoubleClickOptions { click, delay: millis(1) });
    let presses = steps.iter().filter(|s| **s == MouseAction::Press(JsButton::Back)).count();
    let releases = steps.iter().filter(|s| **s == MouseAction::Release(JsButton::Back)).count();
    assert_eq!((presses, releases), (1, 2));
}
