//! The script-facing displays: lookups by name and identifier, random
//! points on the desktop, display selectors, and display information.

use vstd::prelude::*;

use crate::display::DisplayFields;
use crate::displays::{
    cumulative_area, display_keys, drawn_point, first_landing, is_first_min, is_last_max, points_fit, saturated_area, DisplayInfo,
    DisplayKey, Displays, DisplaysError,
};
use crate::geometry::{Point, Rect};
use crate::text::{decimal, decimal_string, signed_decimal, signed_decimal_string};

verus! {

/// The displays as scripts see them.
#[derive(Debug)]
pub struct JsDisplays {
    inner: Displays,
}

/// Wraps a display found, if any, for scripts.
fn wrap(d: Option<DisplayInfo>) -> (r: Option<JsDisplayInfo>)
    ensures
        r is None <==> d is None,
        r matches Some(j) ==> d == Some(j.info()),
{
    match d {
        Some(d) => Some(JsDisplayInfo { inner: d }),
        None => None,
    }
}

impl JsDisplays {
    /// The displays held.
    pub closed spec fn infos(&self) -> Seq<DisplayInfo> {
        self.inner.infos()
    }

    /// Wraps the displays for scripts.
    pub fn new(displays: Displays) -> (r: Self)
        ensures
            r.infos() == displays.infos(),
    {
        JsDisplays { inner: displays }
    }

    /// A point drawn at random on the displays, each display drawn with a
    /// probability proportional to its area. Fails when no display has an
    /// area, or when the drawn point does not fit screen coordinates;
    /// succeeds whenever some display has an area and all their points fit.
    pub fn random_point(&self) -> (r: Result<Point, DisplaysError>)
        ensures
            cumulative_area(self.infos(), self.infos().len() as int) == 0 <==> r == Err::<
                Point,
                DisplaysError,
            >(DisplaysError::NoDisplaysDetected),
            cumulative_area(self.infos(), self.infos().len() as int) > 0 && points_fit(self.infos())
                ==> r is Ok,
            r matches Ok(p) ==> exists|i: int|
                0 <= i < self.infos().len() && saturated_area(self.infos()[i]) > 0 && (#[trigger] self.infos()[i]).rect.holds(p),
            r matches Err(e) ==> e == DisplaysError::NoDisplaysDetected || e == DisplaysError::PointOutOfRange,
            cumulative_area(self.infos(), self.infos().len() as int) > 0 ==> exists|pick: u32, dx: u32, dy: u32|
                {
                    let rect = self.infos()[first_landing(self.infos(), pick as int, 0)].rect;
                    &&& pick < cumulative_area(self.infos(), self.infos().len() as int)
                    &&& first_landing(self.infos(), pick as int, 0) >= 0
                    &&& dx < rect.size.width@
                    &&& dy < rect.size.height@
                    &&& r == #[trigger] drawn_point(self.infos(), pick as int, dx as int, dy as int)
                },
    {
        proof {
            assert(self.infos() == self.inner.infos());
        }
        self.inner.random_point()
    }

    /// The first display that holds the point, if any.
    pub fn from_point(&self, p: Point) -> (r: Option<JsDisplayInfo>)
        ensures
            r is None <==> forall|i: int|
                0 <= i < self.infos().len() ==> !(#[trigger] self.infos()[i]).rect.holds(p),
            r matches Some(d) ==> exists|i: int|
                0 <= i < self.infos().len() && d.info() == self.infos()[i] && d.info().rect.holds(p)
                    && forall|k: int| 0 <= k < i ==> !(#[trigger] self.infos()[k]).rect.holds(p),
    {
        proof {
            assert(self.infos() == self.inner.infos());
        }
        wrap(self.inner.from_point(p))
    }

    /// The first display whose friendly name is `name`, if any.
    pub fn from_name(&self, name: &String) -> (r: Option<JsDisplayInfo>)
        ensures
            r is None <==> forall|i: int|
                0 <= i < self.infos().len() ==> (#[trigger] self.infos()[i]).friendly_name@ != name@,
            r matches Some(d) ==> exists|i: int|
                0 <= i < self.infos().len() && d.info() == self.infos()[i] && d.info().friendly_name@
                    == name@ && forall|k: int|
                    0 <= k < i ==> (#[trigger] self.infos()[k]).friendly_name@ != name@,
    {
        let infos = self.inner.wait_get_info();
        proof {
            assert(self.infos() == infos@);
        }
        let mut j: usize = 0;
        while j < infos.len()
            invariant
                j <= infos.len(),
                infos@ == self.infos(),
                forall|k: int| 0 <= k < j ==> (#[trigger] infos@[k]).friendly_name@ != name@,
            decreases infos.len() - j,
        {
            if infos[j].friendly_name == *name {
                return Some(JsDisplayInfo { inner: infos[j].clone() });
            }
            j = j + 1;
        }
        None
    }

    /// The first display whose device name is `name`, if any.
    pub fn from_device_name(&self, name: &String) -> (r: Option<JsDisplayInfo>)
        ensures
            r is None <==> forall|i: int|
                0 <= i < self.infos().len() ==> (#[trigger] self.infos()[i]).name@ != name@,
            r matches Some(d) ==> exists|i: int|
                0 <= i < self.infos().len() && d.info() == self.infos()[i] && d.info().name@ == name@
                    && forall|k: int| 0 <= k < i ==> (#[trigger] self.infos()[k]).name@ != name@,
    {
        let infos = self.inner.wait_get_info();
        proof {
            assert(self.infos() == infos@);
        }
        let mut j: usize = 0;
        while j < infos.len()
            invariant
                j <= infos.len(),
                infos@ == self.infos(),
                forall|k: int| 0 <= k < j ==> (#[trigger] infos@[k]).name@ != name@,
            decreases infos.len() - j,
        {
            if infos[j].name == *name {
                return Some(JsDisplayInfo { inner: infos[j].clone() });
            }
            j = j + 1;
        }
        None
    }

    /// The first display with the given identifier, if any.
    pub fn from_id(&self, id: u32) -> (r: Option<JsDisplayInfo>)
        ensures
            r is None <==> forall|i: int| 0 <= i < self.infos().len() ==> (#[trigger] self.infos()[i]).id != id,
            r matches Some(d) ==> exists|i: int|
                0 <= i < self.infos().len() && d.info() == self.infos()[i] && d.info().id == id
                    && forall|k: int| 0 <= k < i ==> (#[trigger] self.infos()[k]).id != id,
    {
        let infos = self.inner.wait_get_info();
        proof {
            assert(self.infos() == infos@);
        }
        let mut j: usize = 0;
        while j < infos.len()
            invariant
                j <= infos.len(),
                infos@ == self.infos(),
                forall|k: int| 0 <= k < j ==> (#[trigger] infos@[k]).id != id,
            decreases infos.len() - j,
        {
            if infos[j].id == id {
                return Some(JsDisplayInfo { inner: infos[j].clone() });
            }
            j = j + 1;
        }
        None
    }

    /// The display with the smallest area (the first one on ties), if any.
    pub fn smallest(&self) -> (r: Option<JsDisplayInfo>)
        ensures
            r is None <==> self.infos().len() == 0,
            r matches Some(d) ==> exists|i: int|
                is_first_min(display_keys(DisplayKey::Area, self.infos()), i) && d.info()
                    == self.infos()[i],
    {
        proof {
            assert(self.infos() == self.inner.infos());
        }
        wrap(self.inner.smallest())
    }

    /// The display with the largest area (the last one on ties), if any.
    pub fn largest(&self) -> (r: Option<JsDisplayInfo>)
        ensures
            r is None <==> self.infos().len() == 0,
            r matches Some(d) ==> exists|i: int|
                is_last_max(display_keys(DisplayKey::Area, self.infos()), i) && d.info()
                    == self.infos()[i],
    {
        proof {
            assert(self.infos() == self.inner.infos());
        }
        wrap(self.inner.largest())
    }

    /// All the displays, in order.
    pub fn all(&self) -> (r: Vec<JsDisplayInfo>)
        ensures
            r.len() == self.infos().len(),
            forall|i: int| 0 <= i < r.len() ==> (#[trigger] r@[i]).info() == self.infos()[i],
    {
        let infos = self.inner.wait_get_info();
        proof {
            assert(self.infos() == infos@);
        }
        let mut r: Vec<JsDisplayInfo> = Vec::new();
        let mut j: usize = 0;
        while j < infos.len()
            invariant
                j <= infos.len(),
                infos@ == self.infos(),
                r.len() == j,
                forall|i: int| 0 <= i < j ==> (#[trigger] r@[i]).info() == infos@[i],
            decreases infos.len() - j,
        {
            r.push(JsDisplayInfo { inner: infos[j].clone() });
            j = j + 1;
        }
        r
    }
}

/// A way to pick a display when capturing or searching the screen.
#[derive(Clone, Copy, Debug, PartialEq, Eq, Structural)]
pub enum DisplaySelector {
    /// The whole desktop.
    Desktop,
    /// The primary display.
    Primary,
    /// The display with the largest area.
    Largest,
    /// The display with the smallest area.
    Smallest,
    /// The display furthest to the left.
    Leftmost,
    /// The display furthest to the right.
    Rightmost,
    /// The display furthest to the top.
    Topmost,
    /// The display furthest to the bottom.
    Bottommost,
    /// The display whose center is closest to the desktop's center.
    Center,
    /// The display with this identifier.
    ById(u32),
    /// The display holding this point.
    FromPoint(Point),
}

/// The text of a point: `(x: 1, y: 2)`.
pub open spec fn point_fields_text(p: Point) -> Seq<char> {
    "(x: "@ + signed_decimal(p.x@) + ", y: "@ + signed_decimal(p.y@) + ")"@
}

/// The text of a display selector.
pub open spec fn selector_text(s: DisplaySelector) -> Seq<char> {
    match s {
        DisplaySelector::Desktop => "(desktop)"@,
        DisplaySelector::Primary => "(primary)"@,
        DisplaySelector::Largest => "(largest)"@,
        DisplaySelector::Smallest => "(smallest)"@,
        DisplaySelector::Leftmost => "(leftmost)"@,
        DisplaySelector::Rightmost => "(rightmost)"@,
        DisplaySelector::Topmost => "(topmost)"@,
        DisplaySelector::Bottommost => "(bottommost)"@,
        DisplaySelector::Center => "(center)"@,
        DisplaySelector::ById(id) => "(id: "@ + decimal(id as nat) + ")"@,
        DisplaySelector::FromPoint(p) => "(point: "@ + point_fields_text(p) + ")"@,
    }
}

/// The text of a point: `(x: 1, y: 2)`.
pub fn point_fields_string(p: Point) -> (s: String)
    ensures
        s@ == point_fields_text(p),
{
    let x = signed_decimal_string(p.x.value as i64);
    let y = signed_decimal_string(p.y.value as i64);
    let fields = DisplayFields::new().display("x", x.as_str()).display("y", y.as_str());
    let s = fields.finish_as_string();
    proof {
        reveal_strlit("x");
        reveal_strlit("y");
        reveal_strlit("(x: ");
        reveal_strlit(", y: ");
        reveal_strlit(")");
    }
    assert(s@ =~= point_fields_text(p));
    s
}

impl DisplaySelector {
    /// The text of this selector: its kind in parentheses, or its field.
    pub fn to_display_string(&self) -> (s: String)
        ensures
            s@ == selector_text(*self),
    {
        match self {
            DisplaySelector::Desktop => String::from_str("(desktop)"),
            DisplaySelector::Primary => String::from_str("(primary)"),
            DisplaySelector::Largest => String::from_str("(largest)"),
            DisplaySelector::Smallest => String::from_str("(smallest)"),
            DisplaySelector::Leftmost => String::from_str("(leftmost)"),
            DisplaySelector::Rightmost => String::from_str("(rightmost)"),
            DisplaySelector::Topmost => String::from_str("(topmost)"),
            DisplaySelector::Bottommost => String::from_str("(bottommost)"),
            DisplaySelector::Center => String::from_str("(center)"),
            DisplaySelector::ById(id) => {
                let v = decimal_string(*id as u64);
                let s = DisplayFields::new().display("id", v.as_str()).finish_as_string();
                proof {
                    reveal_strlit("id");
                    reveal_strlit("(id: ");
                    reveal_strlit(")");
                }
                assert(s@ =~= selector_text(*self));
                s
            },
            DisplaySelector::FromPoint(p) => {
                let v = point_fields_string(*p);
                let s = DisplayFields::new().display("point", v.as_str()).finish_as_string();
                proof {
                    reveal_strlit("point");
                    reveal_strlit("(point: ");
                    reveal_strlit(")");
                }
                assert(s@ =~= selector_text(*self));
                s
            },
        }
    }
}

/// The script-facing information about a display.
#[derive(Debug)]
pub struct JsDisplayInfo {
    inner: DisplayInfo,
}

impl JsDisplayInfo {
    /// The information held.
    pub closed spec fn info(&self) -> DisplayInfo {
        self.inner
    }

    /// Wraps the information about a display.
    pub fn new(inner: DisplayInfo) -> (r: Self)
        ensures
            r.info() == inner,
    {
        JsDisplayInfo { inner }
    }

    /// The display's identifier.
    pub fn id(&self) -> (v: u32)
        ensures
            v == self.info().id,
    {
        self.inner.id
    }

    /// The display's device name.
    pub fn name(&self) -> (v: &str)
        ensures
            v@ == self.info().name@,
    {
        self.inner.name.as_str()
    }

    /// The display's friendly name.
    pub fn friendly_name(&self) -> (v: &str)
        ensures
            v@ == self.info().friendly_name@,
    {
        self.inner.friendly_name.as_str()
    }

    /// The display's position and size.
    pub fn rect(&self) -> (v: Rect)
        ensures
            v == self.info().rect,
    {
        self.inner.rect
    }

    /// The display's physical width in millimeters.
    pub fn width_mm(&self) -> (v: i32)
        ensures
            v == self.info().width_mm,
    {
        self.inner.width_mm
    }

    /// The display's physical height in millimeters.
    pub fn height_mm(&self) -> (v: i32)
        ensures
            v == self.info().height_mm,
    {
        self.inner.height_mm
    }

    /// Whether the display is the primary one.
    pub fn is_primary(&self) -> (v: bool)
        ensures
            v == self.info().is_primary,
    {
        self.inner.is_primary
    }
}

} // verus!
