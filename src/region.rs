use vstd::prelude::*;

verus! {

/// A point in screen coordinates.
#[derive(Clone, Copy, Debug, PartialEq, Eq, Structural)]
pub struct Point {
    pub x: i32,
    pub y: i32,
}

/// A rectangle in screen coordinates; `right` and `bottom` are exclusive.
#[derive(Clone, Copy, Debug, PartialEq, Eq, Structural)]
pub struct Rect {
    pub left: i32,
    pub top: i32,
    pub right: i32,
    pub bottom: i32,
}

/// The logical part of a window that a cursor position falls into.
#[derive(Clone, Copy, Debug, PartialEq, Eq, Structural)]
pub enum HitRegion {
    Nowhere,
    Client,
    Caption,
    Left,
    Top,
    Right,
    Bottom,
    TopLeft,
    TopRight,
    BottomLeft,
    BottomRight,
}

/// The four edges of a window, each one bit of an edge mask.
#[derive(Clone, Copy, Debug, PartialEq, Eq, Structural)]
pub enum Region {
    Left,
    Top,
    Right,
    Bottom,
}

/// A non-negative extent, or zero where the extent is negative.
pub open spec fn extent(lo: int, hi: int) -> int {
    if hi - lo > 0 {
        hi - lo
    } else {
        0
    }
}

/// `v` limited to the range of `i32`.
pub open spec fn clamp_i32(v: int) -> int {
    if v < i32::MIN {
        i32::MIN as int
    } else if v > i32::MAX {
        i32::MAX as int
    } else {
        v
    }
}

impl Rect {
    /// Width and height of the rectangle; an inverted rectangle has zero extent.
    pub fn size(&self) -> (r: (u32, u32))
        ensures
            r.0 == extent(self.left as int, self.right as int),
            r.1 == extent(self.top as int, self.bottom as int),
    {
        let w: i64 = self.right as i64 - self.left as i64;
        let h: i64 = self.bottom as i64 - self.top as i64;
        let width: u32 = if w > 0 {
            w as u32
        } else {
            0
        };
        let height: u32 = if h > 0 {
            h as u32
        } else {
            0
        };
        (width, height)
    }
}

fn clamp(v: i64) -> (r: i32)
    ensures
        r == clamp_i32(v as int),
{
    if v < i32::MIN as i64 {
        i32::MIN
    } else if v > i32::MAX as i64 {
        i32::MAX
    } else {
        v as i32
    }
}

/// Border thickness from the frame metrics: each frame size plus the padded
/// border, limited to the range of `i32`.
pub fn border_from_metrics(frame_x: i32, frame_y: i32, padded: i32) -> (r: Point)
    ensures
        r.x == clamp_i32(frame_x + padded),
        r.y == clamp_i32(frame_y + padded),
{
    Point { x: clamp(frame_x as i64 + padded as i64), y: clamp(frame_y as i64 + padded as i64) }
}

/// Titlebar height from the caption-button height and the padded border,
/// which lies above and below it; limited to the range of `i32`.
pub fn titlebar_from_metrics(caption: i32, padded: i32) -> (r: i32)
    ensures
        r == clamp_i32(caption + 2 * padded),
{
    clamp(caption as i64 + 2 * padded as i64)
}

/// Whether the cursor lies within the border of the left edge.
pub open spec fn near_left(c: Point, r: Rect, b: Point) -> bool {
    c.x < r.left + b.x
}

/// Whether the cursor lies within the border of the top edge.
pub open spec fn near_top(c: Point, r: Rect, b: Point) -> bool {
    c.y < r.top + b.y
}

/// Whether the cursor lies within the border of the right edge.
pub open spec fn near_right(c: Point, r: Rect, b: Point) -> bool {
    c.x >= r.right - b.x
}

/// Whether the cursor lies within the border of the bottom edge.
pub open spec fn near_bottom(c: Point, r: Rect, b: Point) -> bool {
    c.y >= r.bottom - b.y
}

/// The edge mask: one bit for each edge whose border the cursor lies in.
pub open spec fn edge_mask_of(c: Point, r: Rect, b: Point) -> int {
    (if near_left(c, r, b) {
        1int
    } else {
        0
    }) + (if near_top(c, r, b) {
        2int
    } else {
        0
    }) + (if near_right(c, r, b) {
        4int
    } else {
        0
    }) + (if near_bottom(c, r, b) {
        8int
    } else {
        0
    })
}

/// The region of a cursor position: inside all borders it is the caption
/// above `titlebar` and the client area below it; within one border it is
/// that edge; within two adjacent borders, the corner between them; any other
/// combination is nowhere.
pub open spec fn region_of(c: Point, r: Rect, b: Point, titlebar: i32) -> HitRegion {
    let l = near_left(c, r, b);
    let t = near_top(c, r, b);
    let rt = near_right(c, r, b);
    let bt = near_bottom(c, r, b);
    if !l && !t && !rt && !bt {
        if c.y < r.top + titlebar {
            HitRegion::Caption
        } else {
            HitRegion::Client
        }
    } else if l && !t && !rt && !bt {
        HitRegion::Left
    } else if !l && t && !rt && !bt {
        HitRegion::Top
    } else if !l && !t && rt && !bt {
        HitRegion::Right
    } else if !l && !t && !rt && bt {
        HitRegion::Bottom
    } else if l && t && !rt && !bt {
        HitRegion::TopLeft
    } else if !l && t && rt && !bt {
        HitRegion::TopRight
    } else if l && !t && !rt && bt {
        HitRegion::BottomLeft
    } else if !l && !t && rt && bt {
        HitRegion::BottomRight
    } else {
        HitRegion::Nowhere
    }
}

/// The bit of an edge in the edge mask.
pub open spec fn bit_of(e: Region) -> int {
    match e {
        Region::Left => 1,
        Region::Top => 2,
        Region::Right => 4,
        Region::Bottom => 8,
    }
}

impl Region {
    /// The bit of this edge in an edge mask.
    pub fn bit(&self) -> (r: u8)
        ensures
            r == bit_of(*self),
    {
        match self {
            Region::Left => 1,
            Region::Top => 2,
            Region::Right => 4,
            Region::Bottom => 8,
        }
    }

    /// The edge mask of a cursor position against a window rectangle and a
    /// border thickness.
    pub fn edge_mask(cursor: Point, rect: Rect, border: Point) -> (m: u8)
        ensures
            m == edge_mask_of(cursor, rect, border),
    {
        let x = cursor.x as i64;
        let y = cursor.y as i64;
        let mut m: u8 = 0;
        if x < rect.left as i64 + border.x as i64 {
            m = m + Region::Left.bit();
        }
        if y < rect.top as i64 + border.y as i64 {
            m = m + Region::Top.bit();
        }
        if x >= rect.right as i64 - border.x as i64 {
            m = m + Region::Right.bit();
        }
        if y >= rect.bottom as i64 - border.y as i64 {
            m = m + Region::Bottom.bit();
        }
        m
    }

    /// Classifies a cursor position for a borderless window's hit test. Total:
    /// every input, degenerate rectangles included, has one region.
    pub fn hit_test(cursor: Point, rect: Rect, border: Point, titlebar_height: i32) -> (r:
        HitRegion)
        ensures
            r == region_of(cursor, rect, border, titlebar_height),
    {
        let mask = Region::edge_mask(cursor, rect, border);
        match mask {
            0 => {
                if (cursor.y as i64) < rect.top as i64 + titlebar_height as i64 {
                    HitRegion::Caption
                } else {
                    HitRegion::Client
                }
            },
            1 => HitRegion::Left,
            2 => HitRegion::Top,
            4 => HitRegion::Right,
            8 => HitRegion::Bottom,
            3 => HitRegion::TopLeft,
            6 => HitRegion::TopRight,
            9 => HitRegion::BottomLeft,
            12 => HitRegion::BottomRight,
            _ => HitRegion::Nowhere,
        }
    }
}

/// A cursor strictly inside the rectangle reduced by the border, and not
/// above the titlebar's lower edge, is in the client area.
pub proof fn lemma_interior_is_client(c: Point, r: Rect, b: Point, titlebar: i32)
    requires
        r.left + b.x <= c.x < r.right - b.x,
        r.top + b.y <= c.y < r.bottom - b.y,
        c.y >= r.top + titlebar,
    ensures
        region_of(c, r, b, titlebar) == HitRegion::Client,
{
}

/// Within the border of exactly one edge the region is that edge; within the
/// borders of two adjacent edges and no other, it is the corner between them.
pub proof fn lemma_edges_and_corners(c: Point, r: Rect, b: Point, titlebar: i32)
    ensures
        near_left(c, r, b) && !near_top(c, r, b) && !near_right(c, r, b) && !near_bottom(c, r, b)
            ==> region_of(c, r, b, titlebar) == HitRegion::Left,
        !near_left(c, r, b) && near_top(c, r, b) && !near_right(c, r, b) && !near_bottom(c, r, b)
            ==> region_of(c, r, b, titlebar) == HitRegion::Top,
        !near_left(c, r, b) && !near_top(c, r, b) && near_right(c, r, b) && !near_bottom(c, r, b)
            ==> region_of(c, r, b, titlebar) == HitRegion::Right,
        !near_left(c, r, b) && !near_top(c, r, b) && !near_right(c, r, b) && near_bottom(c, r, b)
            ==> region_of(c, r, b, titlebar) == HitRegion::Bottom,
        near_left(c, r, b) && near_top(c, r, b) && !near_right(c, r, b) && !near_bottom(c, r, b)
            ==> region_of(c, r, b, titlebar) == HitRegion::TopLeft,
        !near_left(c, r, b) && near_top(c, r, b) && near_right(c, r, b) && !near_bottom(c, r, b)
            ==> region_of(c, r, b, titlebar) == HitRegion::TopRight,
        near_left(c, r, b) && !near_top(c, r, b) && !near_right(c, r, b) && near_bottom(c, r, b)
            ==> region_of(c, r, b, titlebar) == HitRegion::BottomLeft,
        !near_left(c, r, b) && !near_top(c, r, b) && near_right(c, r, b) && near_bottom(c, r, b)
            ==> region_of(c, r, b, titlebar) == HitRegion::BottomRight,
{
}

/// A cursor within the borders of two opposite edges, which happens only on a
/// rectangle narrower or shorter than twice the border, is nowhere.
pub proof fn lemma_opposite_edges_nowhere(c: Point, r: Rect, b: Point, titlebar: i32)
    requires
        (near_left(c, r, b) && near_right(c, r, b)) || (near_top(c, r, b) && near_bottom(c, r, b)),
    ensures
        region_of(c, r, b, titlebar) == HitRegion::Nowhere,
{
}

} // verus!
