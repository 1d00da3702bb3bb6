//! Selection of a display among the connected ones: leftmost, largest,
//! closest to the center of the desktop, the one holding a point, or one
//! picked with a probability proportional to its area.

use rand::Rng;
use vstd::prelude::*;

use crate::geometry::{double_center_x, double_center_y, Point, Rect};
use crate::numeric::{Si32, Su32};
use crate::numeric_ops::su32_of;

verus! {

/// What the library reads of a connected display.
#[derive(Debug)]
pub struct DisplayInfo {
    /// Unique numeric identifier.
    pub id: u32,
    /// Device name, such as `DP-1`.
    pub name: String,
    /// Friendly name, such as `HDMI-1`.
    pub friendly_name: String,
    /// Position and size in pixels.
    pub rect: Rect,
    /// Physical width in millimeters.
    pub width_mm: i32,
    /// Physical height in millimeters.
    pub height_mm: i32,
    /// Whether this is the primary display.
    pub is_primary: bool,
}

impl Clone for DisplayInfo {
    fn clone(&self) -> (r: Self)
        ensures
            r == *self,
    {
        DisplayInfo {
            id: self.id,
            name: self.name.clone(),
            friendly_name: self.friendly_name.clone(),
            rect: self.rect,
            width_mm: self.width_mm,
            height_mm: self.height_mm,
            is_primary: self.is_primary,
        }
    }
}

/// `i` is the first position of a smallest key.
pub open spec fn is_first_min(keys: Seq<int>, i: int) -> bool {
    &&& 0 <= i < keys.len()
    &&& forall|j: int| 0 <= j < keys.len() ==> keys[i] <= #[trigger] keys[j]
    &&& forall|j: int| 0 <= j < i ==> keys[i] < #[trigger] keys[j]
}

/// `i` is the last position of a largest key.
pub open spec fn is_last_max(keys: Seq<int>, i: int) -> bool {
    &&& 0 <= i < keys.len()
    &&& forall|j: int| 0 <= j < keys.len() ==> #[trigger] keys[j] <= keys[i]
    &&& forall|j: int| i < j < keys.len() ==> #[trigger] keys[j] < keys[i]
}

/// The keys as mathematical integers.
pub open spec fn key_values(keys: Seq<i128>) -> Seq<int> {
    keys.map_values(|k: i128| k as int)
}

/// The position of the first smallest key, if any.
pub fn first_min_index(keys: &Vec<i128>) -> (r: Option<usize>)
    ensures
        r is None <==> keys.len() == 0,
        r matches Some(i) ==> is_first_min(key_values(keys@), i as int),
{
    if keys.len() == 0 {
        return None;
    }
    let ghost kv = key_values(keys@);
    let mut best: usize = 0;
    let mut j: usize = 1;
    while j < keys.len()
        invariant
            1 <= j <= keys.len(),
            best < j,
            kv == key_values(keys@),
            forall|k: int| 0 <= k < j ==> kv[best as int] <= #[trigger] kv[k],
            forall|k: int| 0 <= k < best ==> kv[best as int] < #[trigger] kv[k],
        decreases keys.len() - j,
    {
        if keys[j] < keys[best] {
            best = j;
        }
        j = j + 1;
    }
    Some(best)
}

/// The position of the last largest key, if any.
pub fn last_max_index(keys: &Vec<i128>) -> (r: Option<usize>)
    ensures
        r is None <==> keys.len() == 0,
        r matches Some(i) ==> is_last_max(key_values(keys@), i as int),
{
    if keys.len() == 0 {
        return None;
    }
    let ghost kv = key_values(keys@);
    let mut best: usize = 0;
    let mut j: usize = 1;
    while j < keys.len()
        invariant
            1 <= j <= keys.len(),
            best < j,
            kv == key_values(keys@),
            forall|k: int| 0 <= k < j ==> #[trigger] kv[k] <= kv[best as int],
            forall|k: int| best < k < j ==> #[trigger] kv[k] < kv[best as int],
        decreases keys.len() - j,
    {
        if keys[j] >= keys[best] {
            best = j;
        }
        j = j + 1;
    }
    Some(best)
}

/// Which property of a display a selection compares.
#[derive(Clone, Copy, Debug, PartialEq, Eq, Structural)]
pub enum DisplayKey {
    /// The left edge.
    Left,
    /// The right edge.
    Right,
    /// The top edge.
    Top,
    /// The bottom edge.
    Bottom,
    /// The area.
    Area,
    /// The squared distance, doubled on each axis, between the display's
    /// center and the center of the desktop.
    CenterDistance,
}

/// The smaller of two integers.
pub open spec fn min_int(a: int, b: int) -> int {
    if a <= b {
        a
    } else {
        b
    }
}

/// The larger of two integers.
pub open spec fn max_int(a: int, b: int) -> int {
    if a >= b {
        a
    } else {
        b
    }
}

/// The leftmost left edge of some displays (0 when there are none).
pub open spec fn desktop_left(s: Seq<DisplayInfo>) -> int
    decreases s.len(),
{
    if s.len() == 0 {
        0
    } else if s.len() == 1 {
        s[0].rect.left()
    } else {
        min_int(desktop_left(s.drop_last()), s.last().rect.left())
    }
}

/// The topmost top edge of some displays (0 when there are none).
pub open spec fn desktop_top(s: Seq<DisplayInfo>) -> int
    decreases s.len(),
{
    if s.len() == 0 {
        0
    } else if s.len() == 1 {
        s[0].rect.top()
    } else {
        min_int(desktop_top(s.drop_last()), s.last().rect.top())
    }
}

/// The rightmost right edge of some displays (0 when there are none).
pub open spec fn desktop_right(s: Seq<DisplayInfo>) -> int
    decreases s.len(),
{
    if s.len() == 0 {
        0
    } else if s.len() == 1 {
        s[0].rect.right()
    } else {
        max_int(desktop_right(s.drop_last()), s.last().rect.right())
    }
}

/// The bottommost bottom edge of some displays (0 when there are none).
pub open spec fn desktop_bottom(s: Seq<DisplayInfo>) -> int
    decreases s.len(),
{
    if s.len() == 0 {
        0
    } else if s.len() == 1 {
        s[0].rect.bottom()
    } else {
        max_int(desktop_bottom(s.drop_last()), s.last().rect.bottom())
    }
}

/// The key of one display among `all`.
pub open spec fn display_key(kind: DisplayKey, d: DisplayInfo, all: Seq<DisplayInfo>) -> int {
    match kind {
        DisplayKey::Left => d.rect.left(),
        DisplayKey::Right => d.rect.right(),
        DisplayKey::Top => d.rect.top(),
        DisplayKey::Bottom => d.rect.bottom(),
        DisplayKey::Area => d.rect.area(),
        DisplayKey::CenterDistance => {
            let dx = double_center_x(d.rect) - (desktop_left(all) + desktop_right(all));
            let dy = double_center_y(d.rect) - (desktop_top(all) + desktop_bottom(all));
            dx * dx + dy * dy
        },
    }
}

/// The keys of all displays.
pub open spec fn display_keys(kind: DisplayKey, all: Seq<DisplayInfo>) -> Seq<int> {
    Seq::new(all.len(), |j: int| display_key(kind, all[j], all))
}

/// The bounds of the desktop: left, top, right and bottom edges.
fn desktop_bounds(infos: &Vec<DisplayInfo>) -> (b: (i64, i64, i64, i64))
    requires
        infos.len() > 0,
    ensures
        b.0 == desktop_left(infos@),
        b.1 == desktop_top(infos@),
        b.2 == desktop_right(infos@),
        b.3 == desktop_bottom(infos@),
{
    let mut left = infos[0].rect.top_left.x.value as i64;
    let mut top = infos[0].rect.top_left.y.value as i64;
    let mut right = infos[0].rect.right_edge();
    let mut bottom = infos[0].rect.bottom_edge();
    let mut j: usize = 1;
    proof {
        assert(infos@.take(1).len() == 1);
        assert(infos@.take(1)[0] == infos@[0]);
    }
    while j < infos.len()
        invariant
            1 <= j <= infos.len(),
            left == desktop_left(infos@.take(j as int)),
            top == desktop_top(infos@.take(j as int)),
            right == desktop_right(infos@.take(j as int)),
            bottom == desktop_bottom(infos@.take(j as int)),
            i32::MIN <= left <= i32::MAX,
            i32::MIN <= top <= i32::MAX,
            i32::MIN <= right <= i32::MAX + u32::MAX,
            i32::MIN <= bottom <= i32::MAX + u32::MAX,
        decreases infos.len() - j,
    {
        let r = infos[j].rect;
        let l = r.top_left.x.value as i64;
        let t = r.top_left.y.value as i64;
        let rr = r.right_edge();
        let bb = r.bottom_edge();
        if l < left {
            left = l;
        }
        if t < top {
            top = t;
        }
        if rr > right {
            right = rr;
        }
        if bb > bottom {
            bottom = bb;
        }
        proof {
            let p = infos@.take(j as int + 1);
            assert(p.drop_last() =~= infos@.take(j as int));
            assert(p.last() == infos@[j as int]);
        }
        j = j + 1;
    }
    assert(infos@.take(infos.len() as int) =~= infos@);
    (left, top, right, bottom)
}

/// The square of a value in `i128` arithmetic.
fn square_wide(v: i64) -> (r: i128)
    requires
        -0x4_0000_0000 <= v <= 0x4_0000_0000,
    ensures
        r == v * v,
        0 <= r <= 0x10_0000_0000_0000_0000,
{
    assert(0 <= v * v <= 0x10_0000_0000_0000_0000) by (nonlinear_arith)
        requires
            -0x4_0000_0000 <= v <= 0x4_0000_0000,
    ;
    (v as i128) * (v as i128)
}

/// The keys of all displays.
pub fn keys_of(kind: DisplayKey, infos: &Vec<DisplayInfo>) -> (keys: Vec<i128>)
    ensures
        keys.len() == infos.len(),
        key_values(keys@) == display_keys(kind, infos@),
{
    let mut keys: Vec<i128> = Vec::new();
    if infos.len() == 0 {
        assert(key_values(keys@) =~= display_keys(kind, infos@));
        return keys;
    }
    let bounds = desktop_bounds(infos);
    let mut j: usize = 0;
    while j < infos.len()
        invariant
            j <= infos.len(),
            infos.len() > 0,
            bounds.0 == desktop_left(infos@),
            bounds.1 == desktop_top(infos@),
            bounds.2 == desktop_right(infos@),
            bounds.3 == desktop_bottom(infos@),
            keys.len() == j,
            forall|k: int| 0 <= k < j ==> keys@[k] as int == display_key(kind, infos@[k], infos@),
        decreases infos.len() - j,
    {
        let r = infos[j].rect;
        let key: i128 = match kind {
            DisplayKey::Left => r.top_left.x.value as i128,
            DisplayKey::Right => r.right_edge() as i128,
            DisplayKey::Top => r.top_left.y.value as i128,
            DisplayKey::Bottom => r.bottom_edge() as i128,
            DisplayKey::Area => r.surface() as i128,
            DisplayKey::CenterDistance => {
                proof {
                    lemma_desktop_bounds_range(infos@);
                }
                let dx: i64 = 2 * (r.top_left.x.value as i64) + r.size.width.value as i64 - (bounds.0
                    + bounds.2);
                let dy: i64 = 2 * (r.top_left.y.value as i64) + r.size.height.value as i64 - (bounds.1
                    + bounds.3);
                square_wide(dx) + square_wide(dy)
            },
        };
        keys.push(key);
        j = j + 1;
    }
    assert(key_values(keys@) =~= display_keys(kind, infos@));
    keys
}

/// The desktop edges of non-empty displays lie within the reach of their
/// coordinates.
proof fn lemma_desktop_bounds_range(s: Seq<DisplayInfo>)
    requires
        s.len() > 0,
    ensures
        i32::MIN <= desktop_left(s) <= i32::MAX,
        i32::MIN <= desktop_top(s) <= i32::MAX,
        i32::MIN <= desktop_right(s) <= i32::MAX + u32::MAX,
        i32::MIN <= desktop_bottom(s) <= i32::MAX + u32::MAX,
    decreases s.len(),
{
    if s.len() > 1 {
        lemma_desktop_bounds_range(s.drop_last());
    }
}

/// The display at a position, if any.
fn pick(infos: &Vec<DisplayInfo>, index: Option<usize>) -> (r: Option<DisplayInfo>)
    requires
        index matches Some(i) ==> i < infos.len(),
    ensures
        index is None ==> r is None,
        index matches Some(i) ==> r == Some(infos@[i as int]),
{
    match index {
        Some(i) => Some(infos[i].clone()),
        None => None,
    }
}

/// The display whose key is the first smallest one.
pub fn first_min_by(kind: DisplayKey, infos: &Vec<DisplayInfo>) -> (r: Option<DisplayInfo>)
    ensures
        r is None <==> infos.len() == 0,
        r matches Some(d) ==> exists|i: int|
            is_first_min(display_keys(kind, infos@), i) && d == infos@[i],
{
    let keys = keys_of(kind, infos);
    let index = first_min_index(&keys);
    pick(infos, index)
}

/// The display whose key is the last largest one.
pub fn last_max_by(kind: DisplayKey, infos: &Vec<DisplayInfo>) -> (r: Option<DisplayInfo>)
    ensures
        r is None <==> infos.len() == 0,
        r matches Some(d) ==> exists|i: int|
            is_last_max(display_keys(kind, infos@), i) && d == infos@[i],
{
    let keys = keys_of(kind, infos);
    let index = last_max_index(&keys);
    pick(infos, index)
}

/// Why a display could not be chosen.
#[derive(Clone, Copy, Debug, PartialEq, Eq, Structural)]
pub enum DisplaysError {
    /// No display is marked primary.
    NoPrimaryDisplay,
    /// No display with a non-zero area is connected.
    NoDisplaysDetected,
    /// A chosen point does not fit screen coordinates.
    PointOutOfRange,
}

/// The area of a display as a saturating unsigned integer.
pub open spec fn saturated_area(d: DisplayInfo) -> int {
    su32_of(d.rect.size.width@ * d.rect.size.height@)@
}

/// The saturating sum of the areas of the first `n` displays.
pub open spec fn cumulative_area(s: Seq<DisplayInfo>, n: int) -> int
    decreases n,
{
    if n <= 0 {
        0
    } else {
        su32_of(cumulative_area(s, n - 1) + saturated_area(s[n - 1]))@
    }
}

/// The saturating sum of the areas of all displays.
pub fn total_area(infos: &Vec<DisplayInfo>) -> (t: Su32)
    ensures
        t@ == cumulative_area(infos@, infos.len() as int),
{
    let mut total = Su32::zero();
    let mut j: usize = 0;
    while j < infos.len()
        invariant
            j <= infos.len(),
            total@ == cumulative_area(infos@, j as int),
        decreases infos.len() - j,
    {
        let r = infos[j].rect;
        let area = r.size.width * r.size.height;
        total = total + area;
        assert(total@ == cumulative_area(infos@, j as int + 1));
        j = j + 1;
    }
    total
}

/// Whether every point of each display with an area fits screen
/// coordinates: right and bottom edges at most one past `i32::MAX`.
pub open spec fn points_fit(s: Seq<DisplayInfo>) -> bool {
    forall|i: int|
        0 <= i < s.len() && saturated_area(s[i]) > 0 ==> (#[trigger] s[i]).rect.right() <= i32::MAX
            + 1 && s[i].rect.bottom() <= i32::MAX + 1
}

/// Whether display `i` is the one a draw of `pick` lands on: it has a
/// non-zero area and the running total of areas passes `pick` there.
pub open spec fn lands_on(s: Seq<DisplayInfo>, pick: int, i: int) -> bool {
    0 <= i < s.len() && saturated_area(s[i]) > 0 && pick < cumulative_area(s, i + 1)
}

/// The first display from `k` on that a draw of `pick` lands on, or `-1`.
pub open spec fn first_landing(s: Seq<DisplayInfo>, pick: int, k: int) -> int
    decreases s.len() - k,
{
    if k < 0 || k >= s.len() {
        -1
    } else if lands_on(s, pick, k) {
        k
    } else {
        first_landing(s, pick, k + 1)
    }
}

/// A display that a draw lands on, with none landed on between `k` and it,
/// is the first one from `k` on; with none landed on from `k`, there is none.
proof fn lemma_first_landing(s: Seq<DisplayInfo>, pick: int, k: int, i: int)
    requires
        0 <= k <= i <= s.len(),
        i < s.len() ==> lands_on(s, pick, i),
        forall|j: int| k <= j < i ==> !lands_on(s, pick, j),
    ensures
        first_landing(s, pick, k) == if i < s.len() { i } else { -1 },
    decreases i - k,
{
    if k < i {
        lemma_first_landing(s, pick, k + 1, i);
    }
}

/// The first display a draw lands on is one it lands on.
proof fn lemma_first_landing_lands(s: Seq<DisplayInfo>, pick: int, k: int)
    ensures
        first_landing(s, pick, k) >= 0 ==> k <= first_landing(s, pick, k) < s.len() && lands_on(
            s,
            pick,
            first_landing(s, pick, k),
        ),
    decreases s.len() - k,
{
    if 0 <= k < s.len() && !lands_on(s, pick, k) {
        lemma_first_landing_lands(s, pick, k + 1);
    }
}

/// The point a draw gives: the display that `pick` lands on, and the point
/// `dx` to the right of its left edge and `dy` below its top edge, when that
/// point fits screen coordinates.
pub open spec fn drawn_point(s: Seq<DisplayInfo>, pick: int, dx: int, dy: int) -> Result<Point, DisplaysError> {
    let i = first_landing(s, pick, 0);
    if i < 0 {
        Err(DisplaysError::NoDisplaysDetected)
    } else {
        let x = s[i].rect.left() + dx;
        let y = s[i].rect.top() + dy;
        if i32::MIN <= x <= i32::MAX && i32::MIN <= y <= i32::MAX {
            Ok(Point { x: Si32 { value: x as i32 }, y: Si32 { value: y as i32 } })
        } else {
            Err(DisplaysError::PointOutOfRange)
        }
    }
}

/// The display a draw in `[0, total area)` lands on, each display being
/// chosen with a probability proportional to its area.
pub fn choose_by_area(infos: &Vec<DisplayInfo>, pick: u32) -> (r: Result<Rect, DisplaysError>)
    ensures
        match r {
            Ok(rect) => first_landing(infos@, pick as int, 0) >= 0 && rect == infos@[first_landing(
                infos@,
                pick as int,
                0,
            )].rect,
            Err(_) => first_landing(infos@, pick as int, 0) == -1,
        },
        r is Err <==> forall|i: int| 0 <= i < infos.len() ==> !lands_on(infos@, pick as int, i),
        r matches Err(e) ==> e == DisplaysError::NoDisplaysDetected,
        r matches Ok(rect) ==> exists|i: int|
            lands_on(infos@, pick as int, i) && rect == infos@[i].rect && forall|k: int|
                0 <= k < i ==> !lands_on(infos@, pick as int, k),
{
    let mut acc = Su32::zero();
    let mut j: usize = 0;
    while j < infos.len()
        invariant
            j <= infos.len(),
            acc@ == cumulative_area(infos@, j as int),
            forall|k: int| 0 <= k < j ==> !lands_on(infos@, pick as int, k),
        decreases infos.len() - j,
    {
        let r = infos[j].rect;
        let area = r.size.width * r.size.height;
        acc = acc + area;
        assert(area@ == saturated_area(infos@[j as int]));
        assert(acc@ == cumulative_area(infos@, j as int + 1));
        if area.value != 0 && pick < acc.value {
            assert(lands_on(infos@, pick as int, j as int));
            proof {
                lemma_first_landing(infos@, pick as int, 0, j as int);
            }
            return Ok(r);
        }
        j = j + 1;
    }
    proof {
        lemma_first_landing(infos@, pick as int, 0, infos.len() as int);
    }
    Err(DisplaysError::NoDisplaysDetected)
}

/// The point given by the draws `pick` (which display), `dx` and `dy`
/// (where in it, from its top-left corner).
pub fn point_for_draw(infos: &Vec<DisplayInfo>, pick: u32, dx: u32, dy: u32) -> (r: Result<Point, DisplaysError>)
    ensures
        r == drawn_point(infos@, pick as int, dx as int, dy as int),
{
    match choose_by_area(infos, pick) {
        Ok(rect) => {
            let x = rect.top_left.x.value as i64 + dx as i64;
            let y = rect.top_left.y.value as i64 + dy as i64;
            try_point(x, y)
        },
        Err(e) => Err(e),
    }
}

/// The display chosen as the center one is, among all displays, one whose
/// center lies nearest the center of the desktop by straight-line distance:
/// the sum of the squared horizontal and vertical offsets between its
/// doubled center and the desktop's doubled center is no larger than any
/// other display's.
pub proof fn law_center_is_nearest(all: Seq<DisplayInfo>, i: int, j: int)
    requires
        is_first_min(display_keys(DisplayKey::CenterDistance, all), i),
        0 <= j < all.len(),
    ensures
        ({
            let cx = desktop_left(all) + desktop_right(all);
            let cy = desktop_top(all) + desktop_bottom(all);
            let ax = double_center_x(all[i].rect) - cx;
            let ay = double_center_y(all[i].rect) - cy;
            let bx = double_center_x(all[j].rect) - cx;
            let by = double_center_y(all[j].rect) - cy;
            ax * ax + ay * ay <= bx * bx + by * by
        }),
{
    let keys = display_keys(DisplayKey::CenterDistance, all);
    assert(keys[i] <= keys[j]);
}

/// A display whose center is the center of the desktop is as near as can
/// be, so the display chosen as the center one has its center there too.
pub proof fn law_center_at_desktop_center_wins(all: Seq<DisplayInfo>, i: int, j: int)
    requires
        is_first_min(display_keys(DisplayKey::CenterDistance, all), i),
        0 <= j < all.len(),
        double_center_x(all[j].rect) == desktop_left(all) + desktop_right(all),
        double_center_y(all[j].rect) == desktop_top(all) + desktop_bottom(all),
    ensures
        double_center_x(all[i].rect) == desktop_left(all) + desktop_right(all),
        double_center_y(all[i].rect) == desktop_top(all) + desktop_bottom(all),
{
    law_center_is_nearest(all, i, j);
    let ax = double_center_x(all[i].rect) - (desktop_left(all) + desktop_right(all));
    let ay = double_center_y(all[i].rect) - (desktop_top(all) + desktop_bottom(all));
    assert(ax == 0 && ay == 0) by (nonlinear_arith)
        requires
            ax * ax + ay * ay <= 0,
    ;
}

/// A selection that takes the first smallest key gives one display only.
pub proof fn law_first_min_is_unique(keys: Seq<int>, i: int, j: int)
    requires
        is_first_min(keys, i),
        is_first_min(keys, j),
    ensures
        i == j,
{
    if i < j {
        assert(keys[j] < keys[i]);
    } else if j < i {
        assert(keys[i] < keys[j]);
    }
}

/// A selection that takes the last largest key gives one display only.
pub proof fn law_last_max_is_unique(keys: Seq<int>, i: int, j: int)
    requires
        is_last_max(keys, i),
        is_last_max(keys, j),
    ensures
        i == j,
{
    if i < j {
        assert(keys[j] < keys[i]);
    } else if j < i {
        assert(keys[i] < keys[j]);
    }
}

/// With a single display, every selection gives it: it is at once the first
/// smallest and the last largest key.
pub proof fn law_single_display_selected(kind: DisplayKey, all: Seq<DisplayInfo>)
    requires
        all.len() == 1,
    ensures
        is_first_min(display_keys(kind, all), 0),
        is_last_max(display_keys(kind, all), 0),
{
}

/// The running total of areas never decreases, so a display with a larger
/// draw than another never comes earlier.
pub proof fn law_cumulative_area_monotone(s: Seq<DisplayInfo>, m: int, n: int)
    requires
        0 <= m <= n,
    ensures
        cumulative_area(s, m) <= cumulative_area(s, n),
    decreases n - m,
{
    if m < n {
        law_cumulative_area_monotone(s, m, n - 1);
        lemma_area_nonnegative(s[n - 1]);
    }
}

proof fn lemma_area_nonnegative(d: DisplayInfo)
    ensures
        saturated_area(d) >= 0,
{
}

/// The connected displays, as last read from the system.
#[derive(Debug)]
pub struct Displays {
    infos: Vec<DisplayInfo>,
}

/// A draw below the total area lands on some display.
pub proof fn lemma_some_display_lands(s: Seq<DisplayInfo>, pick: int, n: int)
    requires
        0 <= pick < cumulative_area(s, n),
        0 <= n <= s.len(),
    ensures
        exists|i: int| 0 <= i < n && lands_on(s, pick, i),
    decreases n,
{
    if n > 0 {
        if pick < cumulative_area(s, n - 1) {
            lemma_some_display_lands(s, pick, n - 1);
        } else {
            assert(lands_on(s, pick, n - 1));
        }
    }
}

/// A number drawn at random in `[0, n)` by `rand`'s `gen_range` on the
/// thread-local generator. Claims only that the number lies in that range.
#[verifier::external_body]
fn random_below(n: u32) -> (r: u32)
    requires
        n > 0,
    ensures
        r < n,
{
    rand::thread_rng().gen_range(0..n)
}

/// A number drawn at random in `[lo, hi)` by `rand`'s `gen_range` on the
/// thread-local generator. Claims only that the number lies in that range.
#[verifier::external_body]
fn random_between(lo: i64, hi: i64) -> (r: i64)
    requires
        lo < hi,
    ensures
        lo <= r < hi,
{
    rand::thread_rng().gen_range(lo..hi)
}

/// The point at `(x, y)`, when both fit screen coordinates.
pub fn try_point(x: i64, y: i64) -> (r: Result<Point, DisplaysError>)
    ensures
        r is Ok <==> (i32::MIN <= x <= i32::MAX && i32::MIN <= y <= i32::MAX),
        r matches Ok(p) ==> p.x@ == x && p.y@ == y,
        r matches Err(e) ==> e == DisplaysError::PointOutOfRange,
{
    if x < i32::MIN as i64 || x > i32::MAX as i64 || y < i32::MIN as i64 || y > i32::MAX as i64 {
        return Err(DisplaysError::PointOutOfRange);
    }
    Ok(Point { x: Si32::new(x as i32), y: Si32::new(y as i32) })
}

impl Displays {
    /// The displays held, in the order the system listed them.
    pub closed spec fn infos(&self) -> Seq<DisplayInfo> {
        self.infos@
    }

    /// Holds the displays read from the system.
    pub fn new(infos: Vec<DisplayInfo>) -> (d: Self)
        ensures
            d.infos() == infos@,
    {
        Displays { infos }
    }

    /// The information about the displays.
    pub fn wait_get_info(&self) -> (r: &Vec<DisplayInfo>)
        ensures
            r@ == self.infos(),
    {
        &self.infos
    }

    /// The display furthest to the left (the first one with the smallest left edge).
    pub fn leftmost(&self) -> (r: Option<DisplayInfo>)
        ensures
            r is None <==> self.infos().len() == 0,
            r matches Some(d) ==> exists|i: int|
                is_first_min(display_keys(DisplayKey::Left, self.infos()), i) && d == self.infos()[i],
    {
        proof {
            assert(self.infos() == self.infos@);
        }
        first_min_by(DisplayKey::Left, &self.infos)
    }

    /// The display furthest to the right (the last one with the largest right edge).
    pub fn rightmost(&self) -> (r: Option<DisplayInfo>)
        ensures
            r is None <==> self.infos().len() == 0,
            r matches Some(d) ==> exists|i: int|
                is_last_max(display_keys(DisplayKey::Right, self.infos()), i) && d == self.infos()[i],
    {
        proof {
            assert(self.infos() == self.infos@);
        }
        last_max_by(DisplayKey::Right, &self.infos)
    }

    /// The display furthest to the top (the first one with the smallest top edge).
    pub fn topmost(&self) -> (r: Option<DisplayInfo>)
        ensures
            r is None <==> self.infos().len() == 0,
            r matches Some(d) ==> exists|i: int|
                is_first_min(display_keys(DisplayKey::Top, self.infos()), i) && d == self.infos()[i],
    {
        proof {
            assert(self.infos() == self.infos@);
        }
        first_min_by(DisplayKey::Top, &self.infos)
    }

    /// The display furthest to the bottom (the last one with the largest bottom edge).
    pub fn bottommost(&self) -> (r: Option<DisplayInfo>)
        ensures
            r is None <==> self.infos().len() == 0,
            r matches Some(d) ==> exists|i: int|
                is_last_max(display_keys(DisplayKey::Bottom, self.infos()), i) && d == self.infos()[i],
    {
        proof {
            assert(self.infos() == self.infos@);
        }
        last_max_by(DisplayKey::Bottom, &self.infos)
    }

    /// The display with the smallest area (the first one on ties).
    pub fn smallest(&self) -> (r: Option<DisplayInfo>)
        ensures
            r is None <==> self.infos().len() == 0,
            r matches Some(d) ==> exists|i: int|
                is_first_min(display_keys(DisplayKey::Area, self.infos()), i) && d == self.infos()[i],
    {
        proof {
            assert(self.infos() == self.infos@);
        }
        first_min_by(DisplayKey::Area, &self.infos)
    }

    /// The display with the largest area (the last one on ties).
    pub fn largest(&self) -> (r: Option<DisplayInfo>)
        ensures
            r is None <==> self.infos().len() == 0,
            r matches Some(d) ==> exists|i: int|
                is_last_max(display_keys(DisplayKey::Area, self.infos()), i) && d == self.infos()[i],
    {
        proof {
            assert(self.infos() == self.infos@);
        }
        last_max_by(DisplayKey::Area, &self.infos)
    }

    /// The display whose center is closest to the center of the desktop (the
    /// first one on ties).
    pub fn center(&self) -> (r: Option<DisplayInfo>)
        ensures
            r is None <==> self.infos().len() == 0,
            r matches Some(d) ==> exists|i: int|
                is_first_min(display_keys(DisplayKey::CenterDistance, self.infos()), i) && d
                    == self.infos()[i],
            r matches Some(d) ==> forall|j: int|
                0 <= j < self.infos().len() ==> {
                    let cx = desktop_left(self.infos()) + desktop_right(self.infos());
                    let cy = desktop_top(self.infos()) + desktop_bottom(self.infos());
                    let ax = double_center_x(d.rect) - cx;
                    let ay = double_center_y(d.rect) - cy;
                    let bx = double_center_x((#[trigger] self.infos()[j]).rect) - cx;
                    let by = double_center_y(self.infos()[j].rect) - cy;
                    ax * ax + ay * ay <= bx * bx + by * by
                },
    {
        proof {
            assert(self.infos() == self.infos@);
        }
        let r = first_min_by(DisplayKey::CenterDistance, &self.infos);
        proof {
            if r is Some {
                let d = r->0;
                let i = choose|i: int|
                    is_first_min(display_keys(DisplayKey::CenterDistance, self.infos()), i) && d
                        == self.infos()[i];
                assert forall|j: int| 0 <= j < self.infos().len() implies {
                    let cx = desktop_left(self.infos()) + desktop_right(self.infos());
                    let cy = desktop_top(self.infos()) + desktop_bottom(self.infos());
                    let ax = double_center_x(d.rect) - cx;
                    let ay = double_center_y(d.rect) - cy;
                    let bx = double_center_x((#[trigger] self.infos()[j]).rect) - cx;
                    let by = double_center_y(self.infos()[j].rect) - cy;
                    ax * ax + ay * ay <= bx * bx + by * by
                } by {
                    law_center_is_nearest(self.infos(), i, j);
                }
            }
        }
        r
    }

    /// The first display that holds the point, if any.
    pub fn from_point(&self, p: Point) -> (r: Option<DisplayInfo>)
        ensures
            r is None <==> forall|i: int|
                0 <= i < self.infos().len() ==> !(#[trigger] self.infos()[i]).rect.holds(p),
            r matches Some(d) ==> exists|i: int|
                0 <= i < self.infos().len() && d == self.infos()[i] && d.rect.holds(p) && forall|k: int|
                    0 <= k < i ==> !(#[trigger] self.infos()[k]).rect.holds(p),
    {
        let infos = &self.infos;
        proof {
            assert(self.infos() == infos@);
        }
        let mut j: usize = 0;
        while j < infos.len()
            invariant
                j <= infos.len(),
                infos@ == self.infos(),
                forall|k: int| 0 <= k < j ==> !(#[trigger] infos@[k]).rect.holds(p),
            decreases infos.len() - j,
        {
            if infos[j].rect.contains(p) {
                return Some(infos[j].clone());
            }
            j = j + 1;
        }
        None
    }

    /// The first display marked primary.
    pub fn primary(&self) -> (r: Result<DisplayInfo, DisplaysError>)
        ensures
            r is Err <==> forall|i: int|
                0 <= i < self.infos().len() ==> !(#[trigger] self.infos()[i]).is_primary,
            r matches Err(e) ==> e == DisplaysError::NoPrimaryDisplay,
            r matches Ok(d) ==> exists|i: int|
                0 <= i < self.infos().len() && d == self.infos()[i] && d.is_primary && forall|k: int|
                    0 <= k < i ==> !(#[trigger] self.infos()[k]).is_primary,
    {
        let infos = &self.infos;
        proof {
            assert(self.infos() == infos@);
        }
        let mut j: usize = 0;
        while j < infos.len()
            invariant
                j <= infos.len(),
                infos@ == self.infos(),
                forall|k: int| 0 <= k < j ==> !(#[trigger] infos@[k]).is_primary,
            decreases infos.len() - j,
        {
            if infos[j].is_primary {
                return Ok(infos[j].clone());
            }
            j = j + 1;
        }
        Err(DisplaysError::NoPrimaryDisplay)
    }

    /// Copies of all the displays, in order.
    pub fn all(&self) -> (r: Vec<DisplayInfo>)
        ensures
            r@ == self.infos(),
    {
        let infos = &self.infos;
        proof {
            assert(self.infos() == infos@);
        }
        let mut r: Vec<DisplayInfo> = Vec::new();
        let mut j: usize = 0;
        while j < infos.len()
            invariant
                j <= infos.len(),
                r@ == infos@.subrange(0, j as int),
            decreases infos.len() - j,
        {
            r.push(infos[j].clone());
            j = j + 1;
            assert(r@ =~= infos@.subrange(0, j as int));
        }
        assert(infos@.subrange(0, infos.len() as int) =~= infos@);
        r
    }

    /// A point drawn at random on the displays: a display is drawn with a
    /// probability proportional to its area, then a point uniformly inside it.
    /// Fails when no display has an area, or when the drawn point does not
    /// fit screen coordinates; succeeds whenever some display has an area and
    /// all their points fit.
    pub fn random_point(&self) -> (r: Result<Point, DisplaysError>)
        ensures
            cumulative_area(self.infos(), self.infos().len() as int) == 0 <==> r == Err::<
                Point,
                DisplaysError,
            >(DisplaysError::NoDisplaysDetected),
            cumulative_area(self.infos(), self.infos().len() as int) > 0 && points_fit(self.infos())
                ==> r is Ok,
            r matches Ok(p) ==> exists|i: int|
                0 <= i < self.infos().len() && saturated_area(self.infos()[i]) > 0 && (#[trigger] self.infos()[i]).rect.holds(p),
            r matches Err(e) ==> e == DisplaysError::NoDisplaysDetected || e == DisplaysError::PointOutOfRange,
            cumulative_area(self.infos(), self.infos().len() as int) > 0 ==> exists|pick: u32, dx: u32, dy: u32|
                {
                    let rect = self.infos()[first_landing(self.infos(), pick as int, 0)].rect;
                    &&& pick < cumulative_area(self.infos(), self.infos().len() as int)
                    &&& first_landing(self.infos(), pick as int, 0) >= 0
                    &&& dx < rect.size.width@
                    &&& dy < rect.size.height@
                    &&& r == #[trigger] drawn_point(self.infos(), pick as int, dx as int, dy as int)
                },
    {
        let infos = &self.infos;
        proof {
            assert(self.infos() == infos@);
        }
        let total = total_area(infos);
        if total.value == 0 {
            return Err(DisplaysError::NoDisplaysDetected);
        }
        let pick = random_below(total.value);
        proof {
            lemma_some_display_lands(infos@, pick as int, infos.len() as int);
        }
        let rect = match choose_by_area(infos, pick) {
            Ok(rect) => rect,
            Err(e) => return Err(e),
        };
        let left = rect.top_left.x.value as i64;
        let top = rect.top_left.y.value as i64;
        let x_end = left + rect.size.width.value as i64;
        let y_end = top + rect.size.height.value as i64;
        proof {
            let i = first_landing(infos@, pick as int, 0);
            lemma_first_landing_lands(infos@, pick as int, 0);
            assert(lands_on(infos@, pick as int, i));
            assert(saturated_area(infos@[i]) > 0);
            assert(rect.size.width@ > 0 && rect.size.height@ > 0) by (nonlinear_arith)
                requires
                    rect.size.width@ * rect.size.height@ > 0 || su32_of(
                        rect.size.width@ * rect.size.height@,
                    )@ > 0,
                    rect.size.width@ >= 0,
                    rect.size.height@ >= 0,
            ;
            if points_fit(infos@) {
                assert(rect.right() <= i32::MAX + 1 && rect.bottom() <= i32::MAX + 1);
            }
        }
        let x = random_between(left, x_end);
        let y = random_between(top, y_end);
        let dx = (x - left) as u32;
        let dy = (y - top) as u32;
        let r = point_for_draw(infos, pick, dx, dy);
        proof {
            assert(r == drawn_point(infos@, pick as int, dx as int, dy as int));
            if let Ok(p) = r {
                assert(rect.holds(p));
                assert(lands_on(infos@, pick as int, first_landing(infos@, pick as int, 0)));
            }
        }
        r
    }
}

} // verus!
