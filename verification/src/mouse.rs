//! Mouse gestures: pressing, releasing and clicking buttons. The library
//! keeps the buttons held down and decides each gesture's steps; the input
//! layer performs the steps in order and hands the bookkeeping ones back.

use vstd::prelude::*;

use crate::durations::{JsDuration, TimeSpan};
use crate::geometry::Point;

verus! {

/// A mouse button.
#[derive(Clone, Copy, Debug, PartialEq, Eq, Hash, Structural)]
pub enum JsButton {
    /// The left button.
    Left,
    /// The middle button.
    Middle,
    /// The right button.
    Right,
    /// The back side button.
    Back,
    /// The forward side button.
    Forward,
}

/// A scroll axis.
#[derive(Clone, Copy, Debug, PartialEq, Eq, Hash, Structural)]
pub enum JsAxis {
    /// Left and right.
    Horizontal,
    /// Up and down.
    Vertical,
}

/// How a position moves the pointer: to that position, or by that offset.
#[derive(Clone, Copy, Debug, PartialEq, Eq, Structural)]
pub enum Coordinate {
    /// To an absolute position.
    Abs,
    /// By an offset from the current position.
    Rel,
}

/// Options of pressing a button.
#[derive(Clone, Copy, Debug, PartialEq, Eq)]
pub struct PressOptions {
    /// The button.
    pub button: JsButton,
    /// Where to move the pointer first, if anywhere.
    pub position: Option<Point>,
    /// Whether the position is an offset from the current one.
    pub relative_position: bool,
}

impl Default for PressOptions {
    fn default() -> (r: Self)
        ensures
            r.button == JsButton::Left,
            r.position is None,
            !r.relative_position,
    {
        PressOptions { button: JsButton::Left, position: None, relative_position: false }
    }
}

/// Options of clicking a button.
#[derive(Clone, Copy, Debug, PartialEq, Eq)]
pub struct ClickOptions {
    /// The button and where to click it.
    pub press: PressOptions,
    /// How many clicks.
    pub amount: i32,
    /// The pause between two clicks.
    pub interval: JsDuration,
    /// How long the button stays down in each click; a plain click when zero.
    pub duration: JsDuration,
}

impl Default for ClickOptions {
    fn default() -> (r: Self)
        ensures
            r.press.button == JsButton::Left,
            r.press.position is None,
            !r.press.relative_position,
            r.amount == 1,
            r.interval.0.total_nanos() == 0,
            r.duration.0.total_nanos() == 0,
    {
        ClickOptions {
            press: PressOptions::default(),
            amount: 1,
            interval: JsDuration(TimeSpan::from_millis(0)),
            duration: JsDuration(TimeSpan::from_millis(0)),
        }
    }
}

/// Options of double-clicking a button.
#[derive(Clone, Copy, Debug, PartialEq, Eq)]
pub struct DoubleClickOptions {
    /// Each of the two clicks.
    pub click: ClickOptions,
    /// The pause between the two clicks.
    pub delay: JsDuration,
}

impl Default for DoubleClickOptions {
    fn default() -> (r: Self)
        ensures
            r.click.press.button == JsButton::Left,
            r.click.press.position is None,
            !r.click.press.relative_position,
            r.click.amount == 1,
            r.click.interval.0.total_nanos() == 0,
            r.click.duration.0.total_nanos() == 0,
            r.delay.0.total_nanos() == 250_000_000,
    {
        DoubleClickOptions { click: ClickOptions::default(), delay: JsDuration(TimeSpan::from_millis(250)) }
    }
}

/// One step of a gesture.
#[derive(Clone, Copy, Debug, PartialEq, Eq)]
pub enum MouseAction {
    /// Move the pointer.
    MoveTo(Point, Coordinate),
    /// Push a button down.
    Press(JsButton),
    /// Let a button up.
    Release(JsButton),
    /// Push a button down and let it up.
    Click(JsButton),
    /// Wait.
    Sleep(TimeSpan),
    /// The button is now held down.
    Remember(JsButton),
    /// The button is no longer held down.
    Forget(JsButton),
}

/// `s` with `b` added at the end, unless it holds `b` already.
pub open spec fn with_button(s: Seq<JsButton>, b: JsButton) -> Seq<JsButton> {
    if s.contains(b) {
        s
    } else {
        s.push(b)
    }
}

/// `s` without `b`, the others kept in order.
pub open spec fn without_button(s: Seq<JsButton>, b: JsButton) -> Seq<JsButton>
    decreases s.len(),
{
    if s.len() == 0 {
        s
    } else if s.last() == b {
        without_button(s.drop_last(), b)
    } else {
        without_button(s.drop_last(), b).push(s.last())
    }
}

/// The buttons held once a step is taken.
pub open spec fn held_after_step(held: Seq<JsButton>, a: MouseAction) -> Seq<JsButton> {
    match a {
        MouseAction::Remember(b) => with_button(held, b),
        MouseAction::Forget(b) => without_button(held, b),
        _ => held,
    }
}

/// The buttons held once the steps are taken in order.
pub open spec fn held_after(held: Seq<JsButton>, steps: Seq<MouseAction>) -> Seq<JsButton>
    decreases steps.len(),
{
    if steps.len() == 0 {
        held
    } else {
        held_after_step(held_after(held, steps.drop_last()), steps.last())
    }
}

/// How a position given to a gesture moves the pointer.
pub open spec fn coordinate_of(relative: bool) -> Coordinate {
    if relative {
        Coordinate::Rel
    } else {
        Coordinate::Abs
    }
}

/// The move that comes first in a gesture, if the options give a position.
pub open spec fn move_steps(o: PressOptions) -> Seq<MouseAction> {
    match o.position {
        Some(p) => seq![MouseAction::MoveTo(p, coordinate_of(o.relative_position))],
        None => seq![],
    }
}

/// The steps of a press: none when the button is held already; else the
/// move, the press, and remembering the button.
pub open spec fn press_steps(held: Seq<JsButton>, o: PressOptions) -> Seq<MouseAction> {
    if held.contains(o.button) {
        seq![]
    } else {
        move_steps(o) + seq![MouseAction::Press(o.button), MouseAction::Remember(o.button)]
    }
}

/// The steps of one click of `o`, the button being held down before it or
/// not: with a duration, a press unless held, a wait and a release; else a
/// plain click. Then the button is forgotten, and, unless this is the last
/// click, the interval is waited when it is not zero.
pub open spec fn click_round(held: bool, o: ClickOptions, last: bool) -> Seq<MouseAction> {
    let b = o.press.button;
    let down = if o.duration.0.total_nanos() != 0 {
        (if held {
            seq![]
        } else {
            seq![MouseAction::Press(b)]
        }) + seq![MouseAction::Sleep(o.duration.0), MouseAction::Release(b)]
    } else {
        seq![MouseAction::Click(b)]
    };
    let pause = if o.interval.0.total_nanos() != 0 && !last {
        seq![MouseAction::Sleep(o.interval.0)]
    } else {
        seq![]
    };
    down + seq![MouseAction::Forget(b)] + pause
}

/// The steps of clicks `i`, `i + 1`, ... of `o`; the button is held before
/// click `i` when `held`, and never after a click.
pub open spec fn click_rounds(held: bool, o: ClickOptions, i: int) -> Seq<MouseAction>
    decreases o.amount - i,
{
    if i >= o.amount {
        seq![]
    } else {
        click_round(held, o, i + 1 >= o.amount) + click_rounds(false, o, i + 1)
    }
}

/// The steps of a click gesture: the move, then each click.
pub open spec fn click_steps(held: Seq<JsButton>, o: ClickOptions) -> Seq<MouseAction> {
    move_steps(o.press) + click_rounds(held.contains(o.press.button), o, 0)
}

/// The steps of a double click: a click gesture, the delay, and a second
/// click gesture from the buttons held after the first.
pub open spec fn double_click_steps(held: Seq<JsButton>, o: DoubleClickOptions) -> Seq<MouseAction> {
    let first = click_steps(held, o.click);
    first + seq![MouseAction::Sleep(o.delay.0)] + click_steps(held_after(held, first), o.click)
}

/// The buttons held down, in the order they went down.
#[derive(Debug)]
pub struct Mouse {
    pressed_buttons: Vec<JsButton>,
}

impl Mouse {
    #[verifier::type_invariant]
    spec fn inv(&self) -> bool {
        self.pressed_buttons@.no_duplicates()
    }

    /// The buttons held down, in the order they went down.
    pub closed spec fn held(&self) -> Seq<JsButton> {
        self.pressed_buttons@
    }

    /// No button held down.
    pub fn new() -> (m: Self)
        ensures
            m.held() == Seq::<JsButton>::empty(),
    {
        Mouse { pressed_buttons: Vec::new() }
    }

    /// Whether the button is held down.
    pub fn is_pressed(&self, button: JsButton) -> (b: bool)
        ensures
            b == self.held().contains(button),
    {
        let mut i: usize = 0;
        while i < self.pressed_buttons.len()
            invariant
                i <= self.pressed_buttons.len(),
                forall|k: int| 0 <= k < i ==> self.pressed_buttons@[k] != button,
            decreases self.pressed_buttons.len() - i,
        {
            if self.pressed_buttons[i] == button {
                return true;
            }
            i = i + 1;
        }
        false
    }

    /// The steps of pressing a button: nothing when it is held already;
    /// else the move the options ask for, the press, and remembering it.
    pub fn press(&self, options: PressOptions) -> (steps: Vec<MouseAction>)
        ensures
            steps@ == press_steps(self.held(), options),
    {
        if self.is_pressed(options.button) {
            return Vec::new();
        }
        let mut steps = move_to(options);
        steps.push(MouseAction::Press(options.button));
        steps.push(MouseAction::Remember(options.button));
        steps
    }

    /// Which button to let up, and the steps of doing so. A given button
    /// that is not held is ignored. With no button given, the one that went
    /// down last is let up, and it is forgotten at once; with none held,
    /// nothing happens.
    pub fn release(&mut self, button: Option<JsButton>) -> (steps: Vec<MouseAction>)
        ensures
            match button {
                Some(b) => {
                    &&& final(self).held() == old(self).held()
                    &&& steps@ == if old(self).held().contains(b) {
                        seq![MouseAction::Release(b), MouseAction::Forget(b)]
                    } else {
                        seq![]
                    }
                },
                None => if old(self).held().len() == 0 {
                    &&& final(self).held() == old(self).held()
                    &&& steps@ == Seq::<MouseAction>::empty()
                } else {
                    let b = old(self).held().last();
                    &&& final(self).held() == old(self).held().drop_last()
                    &&& steps@ == seq![MouseAction::Release(b), MouseAction::Forget(b)]
                },
            },
    {
        let b = match button {
            Some(b) => {
                if !self.is_pressed(b) {
                    return Vec::new();
                }
                b
            },
            None => {
                proof {
                    use_type_invariant(&*self);
                }
                let mut held = Vec::new();
                std::mem::swap(&mut held, &mut self.pressed_buttons);
                let last = held.pop();
                assert(held@.no_duplicates());
                self.pressed_buttons = held;
                match last {
                    Some(b) => b,
                    None => return Vec::new(),
                }
            },
        };
        let mut steps = Vec::new();
        steps.push(MouseAction::Release(b));
        steps.push(MouseAction::Forget(b));
        steps
    }

    /// The steps of a click gesture: the move the options ask for, then
    /// each click.
    pub fn click(&self, options: ClickOptions) -> (steps: Vec<MouseAction>)
        ensures
            steps@ == click_steps(self.held(), options),
    {
        let mut steps = move_to(options.press);
        let mut held = self.is_pressed(options.press.button);
        let b = options.press.button;
        let mut i: i32 = 0;
        while i < options.amount
            invariant
                0 <= i,
                i <= options.amount || options.amount <= 0,
                b == options.press.button,
                i > 0 ==> !held,
                steps@ + click_rounds(held, options, i as int) == click_steps(self.held(), options),
            decreases options.amount - i,
        {
            let last = i + 1 >= options.amount;
            let ghost before = steps@;
            let ghost rest = click_rounds(false, options, i + 1);
            if !options.duration.0.is_zero() {
                if !held {
                    steps.push(MouseAction::Press(b));
                }
                steps.push(MouseAction::Sleep(options.duration.0));
                steps.push(MouseAction::Release(b));
            } else {
                steps.push(MouseAction::Click(b));
            }
            steps.push(MouseAction::Forget(b));
            if !options.interval.0.is_zero() && !last {
                steps.push(MouseAction::Sleep(options.interval.0));
            }
            assert(steps@ =~= before + click_round(held, options, last));
            assert(click_rounds(held, options, i as int) == click_round(held, options, last) + rest);
            assert((before + click_round(held, options, last)) + rest =~= before + (click_round(
                held,
                options,
                last,
            ) + rest));
            held = false;
            i = i + 1;
        }
        assert(click_rounds(held, options, i as int) =~= Seq::<MouseAction>::empty());
        assert(steps@ + Seq::<MouseAction>::empty() =~= steps@);
        steps
    }

    /// The steps of a double click: a click gesture, the delay, and a second
    /// click gesture from the buttons held after the first.
    pub fn double_click(&self, options: DoubleClickOptions) -> (steps: Vec<MouseAction>)
        ensures
            steps@ == double_click_steps(self.held(), options),
    {
        let mut steps = self.click(options.click);
        proof {
            use_type_invariant(self);
        }
        let mut i: usize = 0;
        let mut held: Vec<JsButton> = Vec::new();
        while i < self.pressed_buttons.len()
            invariant
                i <= self.pressed_buttons.len(),
                held@ == without_button(self.pressed_buttons@.subrange(0, i as int), options.click.press.button),
            decreases self.pressed_buttons.len() - i,
        {
            proof {
                assert(self.pressed_buttons@.subrange(0, i + 1).drop_last() =~= self.pressed_buttons@.subrange(
                    0,
                    i as int,
                ));
            }
            if self.pressed_buttons[i] != options.click.press.button {
                held.push(self.pressed_buttons[i]);
            }
            i = i + 1;
        }
        assert(self.pressed_buttons@.subrange(0, self.pressed_buttons.len() as int) =~= self.pressed_buttons@);
        proof {
            lemma_click_held_after(self.held(), options.click);
            lemma_without_button(self.held(), options.click.press.button);
        }
        let second_held = if options.click.amount >= 1 {
            held
        } else {
            self.pressed_buttons.clone()
        };
        let after = Mouse { pressed_buttons: second_held };
        let mut second = after.click(options.click);
        steps.push(MouseAction::Sleep(options.delay.0));
        steps.append(&mut second);
        steps
    }

    /// Takes a bookkeeping step: remembers or forgets a button; the other
    /// steps change nothing here.
    pub fn apply(&mut self, action: MouseAction)
        ensures
            final(self).held() == held_after_step(old(self).held(), action),
    {
        proof {
            use_type_invariant(&*self);
        }
        match action {
            MouseAction::Remember(b) => {
                if !self.is_pressed(b) {
                    proof {
                        lemma_with_button(self.held(), b);
                    }
                    let mut held = Vec::new();
                    std::mem::swap(&mut held, &mut self.pressed_buttons);
                    held.push(b);
                    self.pressed_buttons = held;
                }
            },
            MouseAction::Forget(b) => {
                proof {
                    lemma_without_button(self.held(), b);
                }
                let mut kept: Vec<JsButton> = Vec::new();
                let mut i: usize = 0;
                while i < self.pressed_buttons.len()
                    invariant
                        i <= self.pressed_buttons.len(),
                        kept@ == without_button(self.pressed_buttons@.subrange(0, i as int), b),
                    decreases self.pressed_buttons.len() - i,
                {
                    proof {
                        assert(self.pressed_buttons@.subrange(0, i + 1).drop_last()
                            =~= self.pressed_buttons@.subrange(0, i as int));
                    }
                    if self.pressed_buttons[i] != b {
                        kept.push(self.pressed_buttons[i]);
                    }
                    i = i + 1;
                }
                assert(self.pressed_buttons@.subrange(0, self.pressed_buttons.len() as int)
                    =~= self.pressed_buttons@);
                self.pressed_buttons = kept;
            },
            _ => {},
        }
    }
}

/// The move that comes first in a gesture, if the options give a position.
fn move_to(options: PressOptions) -> (steps: Vec<MouseAction>)
    ensures
        steps@ == move_steps(options),
{
    let mut steps = Vec::new();
    if let Some(p) = options.position {
        let coordinate = if options.relative_position {
            Coordinate::Rel
        } else {
            Coordinate::Abs
        };
        steps.push(MouseAction::MoveTo(p, coordinate));
    }
    steps
}

/// Removing a button leaves exactly the other buttons, without repeats
/// when there were none.
pub proof fn lemma_without_button(s: Seq<JsButton>, b: JsButton)
    ensures
        forall|x: JsButton|
            #![trigger without_button(s, b).contains(x)]
            without_button(s, b).contains(x) <==> s.contains(x) && x != b,
        s.no_duplicates() ==> without_button(s, b).no_duplicates(),
    decreases s.len(),
{
    broadcast use vstd::seq_lib::group_seq_properties;

    if s.len() > 0 {
        let d = s.drop_last();
        lemma_without_button(d, b);
        let r = without_button(d, b);
        assert(s =~= d.push(s.last()));
        assert forall|x: JsButton| s.contains(x) <==> d.contains(x) || x == s.last() by {
            if s.contains(x) {
                let i = choose|i: int| 0 <= i < s.len() && s[i] == x;
                if i < d.len() {
                    assert(d[i] == x);
                }
            }
            if d.contains(x) {
                let i = choose|i: int| 0 <= i < d.len() && d[i] == x;
                assert(s[i] == x);
            }
            if x == s.last() {
                assert(s[s.len() - 1] == x);
            }
        }
        if s.last() != b {
            let res = r.push(s.last());
            assert forall|x: JsButton| res.contains(x) <==> r.contains(x) || x == s.last() by {
                if res.contains(x) {
                    let i = choose|i: int| 0 <= i < res.len() && res[i] == x;
                    if i < r.len() {
                        assert(r[i] == x);
                    }
                }
                if r.contains(x) {
                    let i = choose|i: int| 0 <= i < r.len() && r[i] == x;
                    assert(res[i] == x);
                }
                if x == s.last() {
                    assert(res[r.len() as int] == x);
                }
            }
            if s.no_duplicates() {
                assert(!d.contains(s.last()));
                assert forall|i: int, j: int| 0 <= i < j < res.len() implies res[i] != res[j] by {
                    if j == r.len() {
                        assert(r.contains(r[i]));
                    }
                }
            }
        }
        assert forall|x: JsButton| without_button(s, b).contains(x) <==> s.contains(x) && x != b by {
            assert(r.contains(x) <==> d.contains(x) && x != b);
        }
    }
}

/// Adding a button leaves the buttons there were and it, without repeats
/// when there were none.
pub proof fn lemma_with_button(s: Seq<JsButton>, b: JsButton)
    ensures
        forall|x: JsButton| with_button(s, b).contains(x) <==> s.contains(x) || x == b,
        s.no_duplicates() ==> with_button(s, b).no_duplicates(),
{
    broadcast use vstd::seq_lib::group_seq_properties;

    if !s.contains(b) && s.no_duplicates() {
        assert forall|i: int, j: int| 0 <= i < j < s.push(b).len() implies s.push(b)[i] != s.push(b)[j] by {
            if j == s.len() {
                assert(s.contains(s[i]));
            }
        }
    }
}

/// Taking a single step.
proof fn lemma_held_after_one(held: Seq<JsButton>, a: MouseAction)
    ensures
        held_after(held, seq![a]) == held_after_step(held, a),
{
    assert(seq![a].drop_last() =~= Seq::<MouseAction>::empty());
    assert(held_after(held, Seq::<MouseAction>::empty()) == held);
}

/// Taking steps one list after another is taking the joined list.
pub proof fn lemma_held_after_append(held: Seq<JsButton>, a: Seq<MouseAction>, b: Seq<MouseAction>)
    ensures
        held_after(held, a + b) == held_after(held_after(held, a), b),
    decreases b.len(),
{
    if b.len() == 0 {
        assert(a + b =~= a);
    } else {
        assert((a + b).drop_last() =~= a + b.drop_last());
        assert((a + b).last() == b.last());
        lemma_held_after_append(held, a, b.drop_last());
    }
}

/// The buttons held after the clicks from `i` on: the clicked button is
/// forgotten when at least one click remains; the others stay as they were.
proof fn lemma_click_rounds_held(held: Seq<JsButton>, h: bool, o: ClickOptions, i: int)
    ensures
        held_after(held, click_rounds(h, o, i)) == if i < o.amount {
            held_after(without_button(held, o.press.button), click_rounds(false, o, i + 1))
        } else {
            held
        },
    decreases o.amount - i,
{
    if i < o.amount {
        let r = click_round(h, o, i + 1 >= o.amount);
        let b = o.press.button;
        lemma_held_after_append(held, r, click_rounds(false, o, i + 1));
        let down = if o.duration.0.total_nanos() != 0 {
            (if h {
                seq![]
            } else {
                seq![MouseAction::Press(b)]
            }) + seq![MouseAction::Sleep(o.duration.0), MouseAction::Release(b)]
        } else {
            seq![MouseAction::Click(b)]
        };
        let pause = if o.interval.0.total_nanos() != 0 && !(i + 1 >= o.amount) {
            seq![MouseAction::Sleep(o.interval.0)]
        } else {
            seq![]
        };
        assert(r == down + seq![MouseAction::Forget(b)] + pause);
        lemma_steps_keep_held(held, down);
        lemma_steps_keep_held(without_button(held, b), pause);
        lemma_held_after_append(held, down, seq![MouseAction::Forget(b)]);
        lemma_held_after_append(held, down + seq![MouseAction::Forget(b)], pause);
        lemma_held_after_one(held, MouseAction::Forget(b));
    } else {
        assert(click_rounds(h, o, i) =~= Seq::<MouseAction>::empty());
    }
}

/// Steps that neither remember nor forget leave the buttons held as they
/// were.
proof fn lemma_steps_keep_held(held: Seq<JsButton>, s: Seq<MouseAction>)
    requires
        forall|k: int| 0 <= k < s.len() ==> !(s[k] is Remember) && !(s[k] is Forget),
    ensures
        held_after(held, s) == held,
    decreases s.len(),
{
    if s.len() > 0 {
        lemma_steps_keep_held(held, s.drop_last());
    }
}

/// After the clicks from `i` on, with at least one, the clicked button is
/// not held and the others are held as before.
proof fn lemma_click_rounds_release(held: Seq<JsButton>, h: bool, o: ClickOptions, i: int)
    requires
        i < o.amount,
    ensures
        held_after(held, click_rounds(h, o, i)) == without_button(held, o.press.button),
    decreases o.amount - i,
{
    lemma_click_rounds_held(held, h, o, i);
    let w = without_button(held, o.press.button);
    if i + 1 < o.amount {
        lemma_click_rounds_release(w, false, o, i + 1);
        lemma_without_twice(held, o.press.button);
    } else {
        lemma_click_rounds_held(w, false, o, i + 1);
    }
}

/// Removing a button twice is removing it once.
proof fn lemma_without_twice(s: Seq<JsButton>, b: JsButton)
    ensures
        without_button(without_button(s, b), b) == without_button(s, b),
    decreases s.len(),
{
    if s.len() > 0 {
        lemma_without_twice(s.drop_last(), b);
        if s.last() != b {
            let r = without_button(s.drop_last(), b);
            assert(r.push(s.last()).drop_last() =~= r);
        }
    }
}

/// The buttons held after a click gesture: without the clicked button when
/// it clicks at least once, else as before.
proof fn lemma_click_held_after(held: Seq<JsButton>, o: ClickOptions)
    ensures
        held_after(held, click_steps(held, o)) == if o.amount >= 1 {
            without_button(held, o.press.button)
        } else {
            held
        },
{
    let m = move_steps(o.press);
    lemma_held_after_append(held, m, click_rounds(held.contains(o.press.button), o, 0));
    lemma_steps_keep_held(held, m);
    if o.amount >= 1 {
        lemma_click_rounds_release(held, held.contains(o.press.button), o, 0);
    } else {
        lemma_click_rounds_held(held, held.contains(o.press.button), o, 0);
    }
}

/// Once a press gesture is done, the button is held down; pressing it
/// again does nothing, and the other buttons are held as before.
pub proof fn law_press_holds_button(held: Seq<JsButton>, o: PressOptions)
    requires
        !held.contains(o.button),
    ensures
        held_after(held, press_steps(held, o)) == held.push(o.button),
        press_steps(held_after(held, press_steps(held, o)), o) == Seq::<MouseAction>::empty(),
{
    let b = o.button;
    let m = move_steps(o);
    let tail = seq![MouseAction::Press(b), MouseAction::Remember(b)];
    lemma_held_after_append(held, m, tail);
    lemma_steps_keep_held(held, m);
    assert(tail.drop_last() =~= seq![MouseAction::Press(b)]);
    lemma_held_after_one(held, MouseAction::Press(b));
    assert(held_after(held, tail) == with_button(held, b));
    assert(held.push(b).contains(b)) by {
        assert(held.push(b)[held.len() as int] == b);
    }
}

/// A click gesture that clicks at least once leaves its button up and
/// the other buttons as they were, whether or not it was held before.
pub proof fn law_click_leaves_button_up(held: Seq<JsButton>, o: ClickOptions)
    requires
        o.amount >= 1,
    ensures
        !held_after(held, click_steps(held, o)).contains(o.press.button),
        forall|x: JsButton|
            x != o.press.button ==> (held_after(held, click_steps(held, o)).contains(x)
                <==> held.contains(x)),
{
    lemma_click_held_after(held, o);
    lemma_without_button(held, o.press.button);
}

} // verus!
