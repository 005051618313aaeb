//! Where a frame of the flip animation is drawn.

use vstd::prelude::*;

verus! {

/// Minimum width, in columns, at which a face is drawn by default. Below
/// it the panel is seen edge-on and drawn as a single vertical bar.
pub const DEFAULT_MIN_WIDTH: u16 = 4;

/// A rectangle of terminal cells: top-left corner and size, as in
/// `ratatui_core::layout::Rect`.
#[derive(Clone, Copy, Debug, PartialEq, Eq, Structural)]
pub struct Area {
    pub x: u16,
    pub y: u16,
    pub width: u16,
    pub height: u16,
}

/// `len` cut down so that `start + len` stays within `u16`.
pub open spec fn clamped_len(start: u16, len: u16) -> u16 {
    if start + len <= u16::MAX {
        len
    } else {
        (u16::MAX - start) as u16
    }
}

/// The rectangle that `Area::new` builds.
pub open spec fn spec_area(x: u16, y: u16, width: u16, height: u16) -> Area {
    Area { x, y, width: clamped_len(x, width), height: clamped_len(y, height) }
}

/// Calls `ratatui_core::layout::Rect::new` and copies the fields of the
/// rectangle it returns. Its source computes the width as
/// `x.saturating_add(width) - x` and the height likewise, which is what
/// the contract states.
#[verifier::external_body]
fn rect_new(x: u16, y: u16, width: u16, height: u16) -> (a: Area)
    ensures
        a == spec_area(x, y, width, height),
{
    let r = ratatui_core::layout::Rect::new(x, y, width, height);
    Area { x: r.x, y: r.y, width: r.width, height: r.height }
}

impl Area {
    /// A rectangle at `(x, y)`, with width and height cut down so that its
    /// right and bottom edges stay within `u16`.
    pub fn new(x: u16, y: u16, width: u16, height: u16) -> (a: Area)
        ensures
            a == spec_area(x, y, width, height),
            a.x + a.width <= u16::MAX,
            a.y + a.height <= u16::MAX,
    {
        rect_new(x, y, width, height)
    }

    /// Whether the rectangle has no cells.
    pub open spec fn spec_is_empty(self) -> bool {
        self.width == 0 || self.height == 0
    }

    /// Whether the right and bottom edges lie within `u16`, as they do for
    /// every rectangle that `Area::new` builds.
    pub open spec fn fits(self) -> bool {
        self.x + self.width <= u16::MAX && self.y + self.height <= u16::MAX
    }
}

/// The width that a narrowed face takes: `scaled_width`, at least one
/// column and at most the full width.
pub open spec fn narrowed_width(area: Area, scaled_width: u16) -> u16 {
    if scaled_width < 1 {
        if area.width < 1 { area.width } else { 1 }
    } else if scaled_width > area.width {
        area.width
    } else {
        scaled_width
    }
}

/// The columns left free on the left of a narrowed face.
pub open spec fn left_margin(area: Area, scaled_width: u16) -> u16 {
    ((area.width - narrowed_width(area, scaled_width)) / 2) as u16
}

/// Whether narrowing `area` keeps the shifted left edge within `u16`;
/// always so for a rectangle that `fits`.
pub open spec fn can_narrow(area: Area, scaled_width: u16) -> bool {
    area.spec_is_empty() || area.x + left_margin(area, scaled_width) <= u16::MAX
}

/// `area` shrunk about its centre to the width of `scaled_width`, keeping
/// its rows; an empty area is left as it is.
pub open spec fn narrowed(area: Area, scaled_width: u16) -> Area {
    if area.spec_is_empty() {
        area
    } else {
        spec_area(
            (area.x + left_margin(area, scaled_width)) as u16,
            area.y,
            narrowed_width(area, scaled_width),
            area.height,
        )
    }
}

/// Centre-shrinks `area` to `scaled_width` columns, the panel's width
/// scaled by the animation's width ratio. The result is at least one
/// column wide and at most as wide as `area`; rows are kept. An empty
/// area is returned unchanged.
pub fn narrow_area(area: Area, scaled_width: u16) -> (r: Area)
    requires
        can_narrow(area, scaled_width),
    ensures
        r == narrowed(area, scaled_width),
        area.spec_is_empty() ==> r == area,
        !area.spec_is_empty() && area.fits() && 1 <= scaled_width <= area.width ==> r == (Area {
            x: (area.x + (area.width - scaled_width) / 2) as u16,
            y: area.y,
            width: scaled_width,
            height: area.height,
        }),
        !area.spec_is_empty() && area.fits() && scaled_width >= area.width ==> r == area,
        !area.spec_is_empty() && area.fits() && scaled_width == 0 ==> r.width == 1 && r.x == area.x
            + (area.width - 1) / 2,
{
    if area.width == 0 || area.height == 0 {
        return area;
    }
    let mut new_width = if scaled_width < 1 {
        1
    } else {
        scaled_width
    };
    if new_width > area.width {
        new_width = area.width;
    }
    let x_offset = (area.width - new_width) / 2;
    Area::new(area.x + x_offset, area.y, new_width, area.height)
}

/// What one frame draws.
#[derive(Clone, Copy, Debug, PartialEq, Eq, Structural)]
pub enum FramePlan {
    /// Render the back face (`back`) or the front face into `area`.
    Face { back: bool, area: Area },
    /// The panel is seen edge-on: draw the edge glyph in `column`, on the
    /// rows from `top` up to but not including `bottom`.
    Edge { column: u16, top: u16, bottom: u16 },
}

/// The plan of a frame drawn into `narrow`.
pub open spec fn planned(narrow: Area, min_width: u16, face_is_back: bool) -> FramePlan {
    if narrow.width >= min_width {
        FramePlan::Face { back: face_is_back, area: narrow }
    } else {
        FramePlan::Edge {
            column: (narrow.x + narrow.width / 2) as u16,
            top: narrow.y,
            bottom: if narrow.y + narrow.height <= u16::MAX {
                (narrow.y + narrow.height) as u16
            } else {
                u16::MAX
            },
        }
    }
}

/// Decides what to draw into the narrowed area `narrow`: the face on view
/// when it is at least `min_width` columns wide, else a vertical edge in
/// its middle column spanning its rows.
pub fn frame_plan(narrow: Area, min_width: u16, face_is_back: bool) -> (p: FramePlan)
    requires
        narrow.width >= min_width || narrow.x + narrow.width / 2 <= u16::MAX,
    ensures
        p == planned(narrow, min_width, face_is_back),
{
    if narrow.width >= min_width {
        FramePlan::Face { back: face_is_back, area: narrow }
    } else {
        FramePlan::Edge {
            column: narrow.x + narrow.width / 2,
            top: narrow.y,
            bottom: narrow.y.saturating_add(narrow.height),
        }
    }
}

/// Narrowing a rectangle that fits keeps it inside the original, centred,
/// with the requested width clamped to between one column and the full
/// width, and with its rows unchanged.
pub proof fn lemma_narrowed_is_centred(area: Area, scaled_width: u16)
    requires
        area.fits(),
        !area.spec_is_empty(),
    ensures
        can_narrow(area, scaled_width),
        narrowed(area, scaled_width).width == narrowed_width(area, scaled_width),
        1 <= narrowed(area, scaled_width).width <= area.width,
        narrowed(area, scaled_width).y == area.y,
        narrowed(area, scaled_width).height == area.height,
        area.x <= narrowed(area, scaled_width).x,
        narrowed(area, scaled_width).x + narrowed(area, scaled_width).width <= area.x + area.width,
        ({
            let r = narrowed(area, scaled_width);
            let left = r.x - area.x;
            let right = (area.x + area.width) - (r.x + r.width);
            left == right || left + 1 == right
        }),
{
}

/// Narrowing follows the requested width: within one column and the full
/// width the result has exactly the requested width and leaves equal
/// margins (the right one a column wider when the difference is odd); a
/// wider request keeps the whole rectangle, and a request of zero keeps a
/// single middle column. A wider request never gives a narrower result.
pub proof fn lemma_narrowed_follows_request(area: Area, scaled_width: u16, wider: u16)
    requires
        area.fits(),
        !area.spec_is_empty(),
        scaled_width <= wider,
    ensures
        1 <= scaled_width <= area.width ==> narrowed(area, scaled_width).width == scaled_width
            && narrowed(area, scaled_width).x == area.x + (area.width - scaled_width) / 2,
        scaled_width >= area.width ==> narrowed(area, scaled_width) == area,
        scaled_width == 0 ==> narrowed(area, scaled_width).width == 1,
        narrowed(area, scaled_width).width <= narrowed(area, wider).width,
        narrowed(area, scaled_width).x >= narrowed(area, wider).x,
{
}

/// In a rectangle that fits and is not empty, a frame draws the face into
/// the whole rectangle exactly when it is at least `min_width` columns
/// wide, and otherwise draws the edge in a column of the rectangle across
/// all of its rows.
pub proof fn lemma_frame_stays_inside(narrow: Area, min_width: u16, face_is_back: bool)
    requires
        narrow.fits(),
        !narrow.spec_is_empty(),
    ensures
        planned(narrow, min_width, face_is_back) is Face <==> narrow.width >= min_width,
        planned(narrow, min_width, face_is_back) matches FramePlan::Face { back, area }
            ==> back == face_is_back && area == narrow,
        planned(narrow, min_width, face_is_back) matches FramePlan::Edge { column, top, bottom }
            ==> narrow.x <= column < narrow.x + narrow.width && top == narrow.y && bottom
            == narrow.y + narrow.height,
{
}

} // verus!
