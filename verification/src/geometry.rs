use vstd::prelude::*;

verus! {

/// Height of the status bar at the top of the screen.
pub const STATUS_BAR_LAYER_HEIGHT: i16 = 16;

/// Height of the league header, status bar included.
pub const HEADER_HEIGHT: i16 = 28 + STATUS_BAR_LAYER_HEIGHT;

/// A point on the screen.
#[derive(Clone, Copy, Debug, PartialEq, Eq, Structural)]
pub struct Point {
    pub x: i16,
    pub y: i16,
}

/// A width and a height.
#[derive(Clone, Copy, Debug, PartialEq, Eq, Structural)]
pub struct Size {
    pub w: i16,
    pub h: i16,
}

/// A rectangle: its top left corner and its size.
#[derive(Clone, Copy, Debug, PartialEq, Eq, Structural)]
pub struct Rect {
    pub origin: Point,
    pub size: Size,
}

/// The rectangle with the given corner and size.
pub open spec fn rect(x: int, y: int, w: int, h: int) -> Rect {
    Rect { origin: Point { x: x as i16, y: y as i16 }, size: Size { w: w as i16, h: h as i16 } }
}

/// Half of `v`, rounded toward zero, as integer division on the watch does.
pub open spec fn halved(v: int) -> int {
    if v >= 0 {
        v / 2
    } else {
        -((-v) / 2)
    }
}

/// `v` brought into the range of `i16` by adding or taking away one turn of
/// 2^16, as wrapping arithmetic does for a value at most one turn away.
pub open spec fn wrapped(v: int) -> int {
    if v > 32767 {
        v - 65536
    } else if v < -32768 {
        v + 65536
    } else {
        v
    }
}

fn half(v: i16) -> (r: i16)
    ensures
        r == halved(v as int),
{
    v / 2
}

/// The frame of the league header in a window with the given bounds: the
/// window's corner and width, and the header's height.
pub fn header_frame(window_bounds: Rect) -> (r: Rect)
    ensures
        r.origin == window_bounds.origin,
        r.size.w == window_bounds.size.w,
        r.size.h == HEADER_HEIGHT,
{
    Rect { origin: window_bounds.origin, size: Size { w: window_bounds.size.w, h: HEADER_HEIGHT } }
}

/// Where the parts of the league header go on a rectangular screen.
#[derive(Clone, Copy, Debug, PartialEq, Eq, Structural)]
pub struct RectHeaderLayout {
    /// The area filled with the header's colour.
    pub background: Rect,
    /// Where the league's name is drawn.
    pub title: Rect,
    /// Where the sport's icon is drawn, when there is one.
    pub icon: Option<Rect>,
}

/// Lays out the league header on a rectangular screen, for a header of the
/// given bounds and a title of the given width: the title stands right of
/// the icon when there is one, and below the status bar.
pub fn rect_header_layout(bounds: Rect, title_w: i16, has_icon: bool) -> (r: RectHeaderLayout)
    ensures
        r.background == bounds,
        r.title == rect(if has_icon { 32 } else { 8 }, 16, title_w as int, 18),
        r.icon == (if has_icon { Some(rect(8, 20, 16, 16)) } else { None::<Rect> }),
{
    let icon_padding: i16 = if has_icon { 32 } else { 8 };
    let title = Rect {
        origin: Point { x: icon_padding, y: STATUS_BAR_LAYER_HEIGHT },
        size: Size { w: title_w, h: 18 },
    };
    let icon = if has_icon {
        Some(Rect { origin: Point { x: 8, y: 4 + STATUS_BAR_LAYER_HEIGHT }, size: Size { w: 16, h: 16 } })
    } else {
        None
    };
    RectHeaderLayout { background: bounds, title, icon }
}

/// Where the parts of the league header go on a round screen.
#[derive(Clone, Copy, Debug, PartialEq, Eq, Structural)]
pub struct RoundHeaderLayout {
    /// The area painted over so that menu rows do not show behind the header.
    pub mask: Rect,
    /// The centre of the disc that forms the header.
    pub circle_center: Point,
    /// The radius of that disc.
    pub circle_radius: i16,
    /// Where the league's name is drawn.
    pub title: Rect,
    /// Where the sport's icon is drawn, when there is one.
    pub icon: Option<Rect>,
}

/// How far down the round header reaches: further when it sits under the
/// status bar.
pub open spec fn menu_bottom(under_status_bar: bool) -> int {
    if under_status_bar {
        44
    } else {
        32
    }
}

/// How far down the round header reaches: further when it sits under the
/// status bar.
pub fn menu_bottom_height(under_status_bar: bool) -> (r: i16)
    ensures
        r == menu_bottom(under_status_bar),
{
    if under_status_bar {
        28 + STATUS_BAR_LAYER_HEIGHT
    } else {
        32
    }
}

/// Lays out the league header on a round screen, for a header of the given
/// bounds and a title of the given width. The header is a disc as wide as
/// the screen whose lowest point is at the bottom of the header; the title
/// is centred (moved right for the icon) and the icon stands left of it.
/// Positions that leave the range of `i16` wrap around.
pub fn round_header_layout(bounds: Rect, title_w: i16, has_icon: bool, under_status_bar: bool) -> (r: RoundHeaderLayout)
    requires
        menu_bottom(under_status_bar) - bounds.size.w <= 32767,
    ensures
        r.mask == rect(0, 0, bounds.size.w as int, menu_bottom(under_status_bar)),
        r.circle_radius == bounds.size.w,
        r.circle_center == (Point {
            x: halved(bounds.size.w as int) as i16,
            y: (menu_bottom(under_status_bar) - bounds.size.w) as i16,
        }),
        r.title == rect(
            wrapped(halved(bounds.size.w as int) - halved(title_w as int) + (if has_icon { 8int } else { 0 })),
            if under_status_bar { 18 } else { 4 },
            title_w as int,
            18,
        ),
        r.icon == (if has_icon {
            Some(rect(
                wrapped(halved(bounds.size.w as int) - halved(title_w as int) - 12),
                if under_status_bar { 22 } else { 8 },
                16,
                16,
            ))
        } else {
            None::<Rect>
        }),
{
    let menu_bottom = menu_bottom_height(under_status_bar);
    let mask = Rect { origin: Point { x: 0, y: 0 }, size: Size { w: bounds.size.w, h: menu_bottom } };
    let radius = bounds.size.w;
    let horz_center = half(bounds.size.w);
    let vert_center = menu_bottom - radius;
    let icon_padding: i16 = if has_icon { 8 } else { 0 };
    let title_half = half(title_w);
    let title_x = horz_center.wrapping_sub(title_half).wrapping_add(icon_padding);
    let title_y: i16 = if under_status_bar { 2 + STATUS_BAR_LAYER_HEIGHT } else { 4 };
    let title = Rect { origin: Point { x: title_x, y: title_y }, size: Size { w: title_w, h: 18 } };
    let icon = if has_icon {
        let icon_x = horz_center.wrapping_sub(title_half).wrapping_sub(12);
        let icon_y: i16 = if under_status_bar { 6 + STATUS_BAR_LAYER_HEIGHT } else { 8 };
        Some(Rect { origin: Point { x: icon_x, y: icon_y }, size: Size { w: 16, h: 16 } })
    } else {
        None
    };
    RoundHeaderLayout {
        mask,
        circle_center: Point { x: horz_center, y: vert_center },
        circle_radius: radius,
        title,
        icon,
    }
}


/// The number of rows a menu shows for a list of `len` items: the count
/// kept to its low 16 bits.
pub fn row_count(len: usize) -> (r: u16)
    ensures
        r == len % 65536,
{
    assert(len as u16 == len % 65536) by (bit_vector);
    len as u16
}

/// The space left on either side of a game's large row, and above it.
pub open spec fn row_paddings(is_round: bool) -> (i16, i16) {
    if is_round {
        (16, 4)
    } else {
        (8, 0)
    }
}

/// The space left on either side of a game's large row, and above it: more
/// on a round screen.
pub fn large_row_paddings(is_round: bool) -> (r: (i16, i16))
    ensures
        r == row_paddings(is_round),
{
    if is_round {
        (16, 4)
    } else {
        (8, 0)
    }
}

/// Where a text of width `text_w` starts so that it ends `padding` short of
/// the right edge of a cell of width `cell_w`.
pub fn right_aligned_x(cell_w: i16, text_w: i16, padding: i16) -> (r: i16)
    requires
        -32768 <= cell_w - text_w <= 32767,
        -32768 <= cell_w - text_w - padding <= 32767,
    ensures
        r == cell_w - text_w - padding,
{
    cell_w - text_w - padding
}

/// Where a line of text starts that stands right below a text drawn at
/// `above`: its top is the bottom of that text.
pub fn below(above: Rect) -> (r: i16)
    requires
        -32768 <= above.origin.y + above.size.h <= 32767,
    ensures
        r == above.origin.y + above.size.h,
{
    above.origin.y + above.size.h
}

} // verus!
