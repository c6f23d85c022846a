//! Where a window's client area lies inside its captured texture.
//!
//! A captured window frame holds the title bar, the borders and some padding
//! around the content. The functions here turn the rectangles that the window
//! system reports into the box to cut out of the texture.

use vstd::prelude::*;

verus! {

/// A rectangle in signed pixel coordinates; `right` and `bottom` are exclusive.
#[derive(Debug, Clone, Copy, PartialEq, Eq, Structural)]
pub struct Rect {
    pub left: i32,
    pub top: i32,
    pub right: i32,
    pub bottom: i32,
}

/// A point in signed pixel coordinates.
#[derive(Debug, Clone, Copy, PartialEq, Eq, Structural)]
pub struct Point {
    pub x: i32,
    pub y: i32,
}

/// A region of a texture, in texels; `right` and `bottom` are exclusive.
#[derive(Debug, Clone, Copy, PartialEq, Eq, Structural)]
pub struct ClientBox {
    pub left: u32,
    pub top: u32,
    pub right: u32,
    pub bottom: u32,
}

/// What the window system answered about one window at one moment.
///
/// A query that failed is `None`.
#[derive(Debug, Clone, Copy, PartialEq, Eq, Structural)]
pub struct WindowProbe {
    /// The window is minimized.
    pub minimized: bool,
    /// The client rectangle, in client coordinates (its origin is `(0, 0)`).
    pub client_rect: Option<Rect>,
    /// The window's visible bounds on screen, without the invisible padding.
    pub frame_bounds: Option<Rect>,
    /// The client area's upper-left corner on screen.
    pub client_origin: Option<Point>,
}

/// Size of a window's capture frame and the place of its client area in it.
#[derive(Debug, Clone, Copy, PartialEq, Eq, Structural)]
pub struct WindowGeometry {
    pub frame_width: u32,
    pub frame_height: u32,
    pub client_box: Option<ClientBox>,
}

impl ClientBox {
    /// The box is not empty and lies inside a `tex_w` x `tex_h` texture.
    pub open spec fn fits(self, tex_w: u32, tex_h: u32) -> bool {
        &&& self.left < self.right <= tex_w
        &&& self.top < self.bottom <= tex_h
    }

    pub open spec fn spec_width(self) -> int {
        self.right - self.left
    }

    pub open spec fn spec_height(self) -> int {
        self.bottom - self.top
    }

    /// Width of the box in texels.
    pub fn width(&self) -> (w: u32)
        requires
            self.left <= self.right,
        ensures
            w == self.spec_width(),
    {
        self.right - self.left
    }

    /// Height of the box in texels.
    pub fn height(&self) -> (h: u32)
        requires
            self.top <= self.bottom,
        ensures
            h == self.spec_height(),
    {
        self.bottom - self.top
    }
}

/// Distance from `bound` to `origin` along one axis, zero when the origin lies
/// before the bound.
pub open spec fn spec_offset(origin: int, bound: int) -> int {
    if origin > bound {
        origin - bound
    } else {
        0
    }
}

/// Extent of the cut along one axis: what is left of the texture behind
/// `offset`, but no more than the client area has.
pub open spec fn spec_extent(tex: int, offset: int, client: int) -> int {
    if tex - offset < client {
        tex - offset
    } else {
        client
    }
}

/// The client area's box inside a `tex_w` x `tex_h` texture.
///
/// There is none when the window is minimized, when a query failed, when the
/// client rectangle is empty, or when the client area starts outside the
/// texture.
pub open spec fn spec_client_box(probe: WindowProbe, tex_w: u32, tex_h: u32) -> Option<ClientBox> {
    if probe.minimized || probe.client_rect is None || probe.frame_bounds is None
        || probe.client_origin is None {
        None
    } else {
        let client = probe.client_rect->0;
        let bounds = probe.frame_bounds->0;
        let origin = probe.client_origin->0;
        let left = spec_offset(origin.x as int, bounds.left as int);
        let top = spec_offset(origin.y as int, bounds.top as int);
        if client.right <= 0 || client.bottom <= 0 || left >= tex_w || top >= tex_h {
            None
        } else {
            Some(
                ClientBox {
                    left: left as u32,
                    top: top as u32,
                    right: (left + spec_extent(tex_w as int, left, client.right as int)) as u32,
                    bottom: (top + spec_extent(tex_h as int, top, client.bottom as int)) as u32,
                },
            )
        }
    }
}

/// The frame size of a window and its client box inside a texture of the
/// current pool size.
///
/// There is none when the window is minimized, when its bounds are unknown or
/// when they are empty.
pub open spec fn spec_window_geometry(probe: WindowProbe, pool_w: u32, pool_h: u32) -> Option<
    WindowGeometry,
> {
    if probe.minimized || probe.frame_bounds is None {
        None
    } else {
        let bounds = probe.frame_bounds->0;
        if bounds.right <= bounds.left || bounds.bottom <= bounds.top {
            None
        } else {
            Some(
                WindowGeometry {
                    frame_width: (bounds.right - bounds.left) as u32,
                    frame_height: (bounds.bottom - bounds.top) as u32,
                    client_box: spec_client_box(probe, pool_w, pool_h),
                },
            )
        }
    }
}

fn axis_offset(origin: i32, bound: i32) -> (offset: u32)
    ensures
        offset == spec_offset(origin as int, bound as int),
{
    if origin > bound {
        let d: i64 = origin as i64 - bound as i64;
        d as u32
    } else {
        0
    }
}

/// Compute the client area's box for a window capture.
///
/// The offset of the box is the client origin minus the origin of the visible
/// bounds, never negative; its extent is the smaller of the client rectangle's
/// extent and what the texture has left behind the offset.
pub fn client_box(probe: &WindowProbe, tex_w: u32, tex_h: u32) -> (cut: Option<ClientBox>)
    ensures
        cut == spec_client_box(*probe, tex_w, tex_h),
        cut matches Some(b) ==> b.fits(tex_w, tex_h),
{
    if probe.minimized {
        return None;
    }
    let client = match probe.client_rect {
        Some(r) => r,
        None => {
            return None;
        },
    };
    if client.right <= 0 || client.bottom <= 0 {
        return None;
    }
    let bounds = match probe.frame_bounds {
        Some(r) => r,
        None => {
            return None;
        },
    };
    let origin = match probe.client_origin {
        Some(p) => p,
        None => {
            return None;
        },
    };
    let left: u32 = axis_offset(origin.x, bounds.left);
    let top: u32 = axis_offset(origin.y, bounds.top);
    if left >= tex_w || top >= tex_h {
        return None;
    }
    let avail_w: u32 = tex_w - left;
    let avail_h: u32 = tex_h - top;
    let client_w: u32 = client.right as u32;
    let client_h: u32 = client.bottom as u32;
    let cut_w: u32 = if avail_w < client_w {
        avail_w
    } else {
        client_w
    };
    let cut_h: u32 = if avail_h < client_h {
        avail_h
    } else {
        client_h
    };
    Some(ClientBox { left, top, right: left + cut_w, bottom: top + cut_h })
}

/// Compute a window's frame size and client box from one probe of the window.
pub fn window_geometry(probe: &WindowProbe, pool_w: u32, pool_h: u32) -> (geometry: Option<
    WindowGeometry,
>)
    ensures
        geometry == spec_window_geometry(*probe, pool_w, pool_h),
        geometry matches Some(g) ==> g.frame_width > 0 && g.frame_height > 0 && (
        g.client_box matches Some(b) ==> b.fits(pool_w, pool_h)),
{
    if probe.minimized {
        return None;
    }
    let bounds = match probe.frame_bounds {
        Some(r) => r,
        None => {
            return None;
        },
    };
    if bounds.right <= bounds.left || bounds.bottom <= bounds.top {
        return None;
    }
    let w: i64 = bounds.right as i64 - bounds.left as i64;
    let h: i64 = bounds.bottom as i64 - bounds.top as i64;
    Some(
        WindowGeometry {
            frame_width: w as u32,
            frame_height: h as u32,
            client_box: client_box(probe, pool_w, pool_h),
        },
    )
}

} // verus!
