//! The native surface dispatch loop's state machine.
//!
//! The blocking protocol connection and its dispatch calls live with the
//! caller on a dedicated thread; two channels cross that boundary, a
//! command channel in and an event channel out. Everything the loop
//! decides — window records, ids, configure handling, the exit flag, and
//! the pixel fill for the shared-memory buffers — is verified here.

use vstd::prelude::*;

verus! {

/// Events sent from the dispatch loop to its owner.
#[derive(Debug, Clone, PartialEq, Eq)]
pub enum WaylandEvent {
    WindowCreated { window_id: u32, app_id: String },
    WindowClosed { window_id: u32 },
    Error(String),
}

/// Commands sent into the dispatch loop. The caller pairs `CreateWindow`
/// with a reply channel for the new local id.
#[derive(Debug, PartialEq, Eq)]
pub enum WaylandCommand {
    CreateWindow { app_id: String, title: String, background_color: (u8, u8, u8) },
    CloseWindow { window_id: u32 },
    Shutdown,
}

/// A window managed by the dispatch loop.
#[derive(Debug)]
pub struct ManagedWindow {
    pub id: u32,
    pub app_id: String,
    pub background_color: (u8, u8, u8),
    pub width: u32,
    pub height: u32,
    pub configured: bool,
    pub buffer_attached: bool,
}

/// The default surface size used until the compositor negotiates one.
pub const DEFAULT_SURFACE_WIDTH: u32 = 200;

pub const DEFAULT_SURFACE_HEIGHT: u32 = 100;

/// The dispatch loop's own state: the managed windows, the id counter,
/// and the exit flag.
pub struct SurfaceLoopState {
    pub windows: Vec<ManagedWindow>,
    pub window_counter: u32,
    pub exit: bool,
}

impl SurfaceLoopState {
    /// A fresh loop state: no windows, ids from zero, not exiting.
    pub fn new() -> (r: Self)
        ensures
            r.windows@.len() == 0,
            r.window_counter == 0,
            !r.exit,
    {
        SurfaceLoopState { windows: Vec::new(), window_counter: 0, exit: false }
    }

    /// Registers a new window: it takes the next local id, the default
    /// size, and starts unconfigured with no buffer attached. Returns
    /// the id, to be answered on the reply channel, and the event to
    /// emit.
    pub fn create_window(
        &mut self,
        app_id: String,
        background_color: (u8, u8, u8),
    ) -> (r: (u32, WaylandEvent))
        requires
            old(self).window_counter < u32::MAX,
        ensures
            r.0 == old(self).window_counter,
            final(self).window_counter == old(self).window_counter + 1,
            final(self).exit == old(self).exit,
            final(self).windows@ == old(self).windows@.push(
                ManagedWindow {
                    id: old(self).window_counter,
                    app_id: app_id,
                    background_color: background_color,
                    width: DEFAULT_SURFACE_WIDTH,
                    height: DEFAULT_SURFACE_HEIGHT,
                    configured: false,
                    buffer_attached: false,
                },
            ),
            r.1 == (WaylandEvent::WindowCreated {
                window_id: old(self).window_counter,
                app_id: app_id,
            }),
    {
        let window_id = self.window_counter;
        self.window_counter = self.window_counter + 1;
        let ghost before = self.windows@;
        let aid2 = clone_string(&app_id);
        self.windows.push(ManagedWindow {
            id: window_id,
            app_id: app_id,
            background_color: background_color,
            width: DEFAULT_SURFACE_WIDTH,
            height: DEFAULT_SURFACE_HEIGHT,
            configured: false,
            buffer_attached: false,
        });
        (window_id, WaylandEvent::WindowCreated { window_id: window_id, app_id: aid2 })
    }

    /// Removes a window; reports whether it existed, and the event to
    /// emit when it did.
    pub fn close_window(&mut self, window_id: u32) -> (r: Option<WaylandEvent>)
        ensures
            final(self).window_counter == old(self).window_counter,
            final(self).exit == old(self).exit,
            final(self).windows@ == old(self).windows@.filter(
                |w: ManagedWindow| w.id != window_id,
            ),
            r is Some <==> exists|i: int| 0 <= i < old(self).windows@.len()
                && (#[trigger] old(self).windows@[i]).id == window_id,
            r is Some ==> r == Some(WaylandEvent::WindowClosed { window_id: window_id }),
    {
        let ghost orig = self.windows@;
        let mut kept: Vec<ManagedWindow> = Vec::new();
        let mut found = false;
        proof {
            assert(orig.take(0).filter(|w: ManagedWindow| w.id != window_id)
                =~= Seq::<ManagedWindow>::empty());
        }
        let mut i: usize = 0;
        while i < self.windows.len()
            invariant
                i <= self.windows@.len(),
                orig == self.windows@,
                kept@ == orig.take(i as int).filter(|w: ManagedWindow| w.id != window_id),
                found <==> exists|j: int| 0 <= j < i && (#[trigger] orig[j]).id == window_id,
            decreases self.windows@.len() - i,
        {
            proof {
                reveal_with_fuel(Seq::filter, 2);
                assert(orig.take(i + 1 as int).drop_last() =~= orig.take(i as int));
                assert(orig.take(i + 1 as int).last() == orig[i as int]);
            }
            if self.windows[i].id != window_id {
                let w = clone_managed(&self.windows[i]);
                kept.push(w);
            } else {
                found = true;
            }
            i = i + 1;
        }
        proof {
            assert(orig.take(orig.len() as int) =~= orig);
        }
        self.windows = kept;
        if found {
            Some(WaylandEvent::WindowClosed { window_id: window_id })
        } else {
            None
        }
    }

    /// Notes a close request from the user or the compositor: the loop
    /// is to exit.
    pub fn request_close(&mut self)
        ensures
            final(self).exit,
            final(self).windows@ == old(self).windows@,
            final(self).window_counter == old(self).window_counter,
    {
        self.exit = true;
    }

    /// Applies one size-negotiation callback to the window at an index:
    /// a negotiated size replaces the stored one, the window counts as
    /// configured, and the caller must draw when this is the first
    /// configure or no buffer is attached yet.
    pub fn configure(&mut self, index: usize, new_size: Option<(u32, u32)>) -> (redraw: bool)
        requires
            index < old(self).windows@.len(),
        ensures
            final(self).windows@.len() == old(self).windows@.len(),
            final(self).window_counter == old(self).window_counter,
            final(self).exit == old(self).exit,
            ({
                let w0 = old(self).windows@[index as int];
                let w1 = final(self).windows@[index as int];
                &&& w1.id == w0.id
                &&& w1.app_id == w0.app_id
                &&& w1.background_color == w0.background_color
                &&& w1.configured
                &&& w1.buffer_attached == w0.buffer_attached
                &&& (match new_size {
                    Some((nw, nh)) => w1.width == nw && w1.height == nh,
                    None => w1.width == w0.width && w1.height == w0.height,
                })
                &&& redraw == (!w0.configured || !w0.buffer_attached)
            }),
            forall|j: int| 0 <= j < old(self).windows@.len() && j != index
                ==> final(self).windows@[j] == old(self).windows@[j],
    {
        let w0 = clone_managed(&self.windows[index]);
        let was_configured = w0.configured;
        let buffer_attached = w0.buffer_attached;
        let (nw, nh) = match new_size {
            Some((a, b)) => (a, b),
            None => (w0.width, w0.height),
        };
        self.windows.set(index, ManagedWindow {
            id: w0.id,
            app_id: w0.app_id,
            background_color: w0.background_color,
            width: nw,
            height: nh,
            configured: true,
            buffer_attached: buffer_attached,
        });
        !was_configured || !buffer_attached
    }

    /// Records that a buffer was attached and committed for the window
    /// at an index.
    pub fn mark_buffer_attached(&mut self, index: usize)
        requires
            index < old(self).windows@.len(),
        ensures
            final(self).windows@.len() == old(self).windows@.len(),
            final(self).window_counter == old(self).window_counter,
            final(self).exit == old(self).exit,
            final(self).windows@[index as int].buffer_attached,
            final(self).windows@[index as int].id == old(self).windows@[index as int].id,
            final(self).windows@[index as int].app_id == old(self).windows@[index as int].app_id,
            final(self).windows@[index as int].width == old(self).windows@[index as int].width,
            final(self).windows@[index as int].height == old(self).windows@[index as int].height,
            final(self).windows@[index as int].configured == old(self).windows@[
                index as int
            ].configured,
            final(self).windows@[index as int].background_color == old(self).windows@[
                index as int
            ].background_color,
            forall|j: int| 0 <= j < old(self).windows@.len() && j != index
                ==> final(self).windows@[j] == old(self).windows@[j],
    {
        let w0 = clone_managed(&self.windows[index]);
        self.windows.set(index, ManagedWindow {
            id: w0.id,
            app_id: w0.app_id,
            background_color: w0.background_color,
            width: w0.width,
            height: w0.height,
            configured: w0.configured,
            buffer_attached: true,
        });
    }

    /// Finds the managed window with the given local id.
    pub fn index_of(&self, window_id: u32) -> (r: Option<usize>)
        ensures
            match r {
                Some(i) => i < self.windows@.len() && self.windows@[i as int].id == window_id,
                None => forall|i: int| 0 <= i < self.windows@.len()
                    ==> (#[trigger] self.windows@[i]).id != window_id,
            },
    {
        let mut i: usize = 0;
        while i < self.windows.len()
            invariant
                i <= self.windows@.len(),
                forall|j: int| 0 <= j < i ==> (#[trigger] self.windows@[j]).id != window_id,
            decreases self.windows@.len() - i,
        {
            if self.windows[i].id == window_id {
                return Some(i);
            }
            i = i + 1;
        }
        None
    }
}

fn clone_string(s: &String) -> (r: String)
    ensures
        r == *s,
{
    s.clone()
}

fn clone_managed(w: &ManagedWindow) -> (r: ManagedWindow)
    ensures
        r == *w,
{
    ManagedWindow {
        id: w.id,
        app_id: w.app_id.clone(),
        background_color: w.background_color,
        width: w.width,
        height: w.height,
        configured: w.configured,
        buffer_attached: w.buffer_attached,
    }
}

// ---------------------------------------------------------------------------
// Pixel fill
// ---------------------------------------------------------------------------

/// The 32-bit ARGB pixel for an opaque RGB color.
pub open spec fn argb_pixel_spec(color: (u8, u8, u8)) -> u32 {
    (0xFF00_0000u32 | ((color.0 as u32) << 16) | ((color.1 as u32) << 8) | (color.2 as u32))
}

/// Builds the 32-bit ARGB pixel for an opaque RGB color.
pub fn argb_pixel(color: (u8, u8, u8)) -> (r: u32)
    ensures
        r == argb_pixel_spec(color),
{
    0xFF00_0000u32 | ((color.0 as u32) << 16) | ((color.1 as u32) << 8) | (color.2 as u32)
}

/// The little-endian bytes of one pixel.
pub open spec fn pixel_bytes(pix: u32) -> Seq<u8> {
    seq![
        (pix & 0xFF) as u8,
        ((pix >> 8) & 0xFF) as u8,
        ((pix >> 16) & 0xFF) as u8,
        ((pix >> 24) & 0xFF) as u8,
    ]
}

/// Fills a buffer for a surface of the given size with one opaque
/// color: four bytes per pixel, each pixel the color's ARGB value in
/// little-endian order.
pub fn fill_argb_buffer(width: u32, height: u32, color: (u8, u8, u8)) -> (r: Vec<u8>)
    requires
        width as nat * height as nat * 4 <= usize::MAX,
    ensures
        r@.len() == width as nat * height as nat * 4,
        forall|p: int| 0 <= p < width as nat * height as nat ==> #[trigger] r@.subrange(
            4 * p,
            4 * p + 4,
        ) == pixel_bytes(argb_pixel_spec(color)),
{
    let pix = argb_pixel(color);
    let b0: u8 = (pix & 0xFF) as u8;
    let b1: u8 = ((pix >> 8) & 0xFF) as u8;
    let b2: u8 = ((pix >> 16) & 0xFF) as u8;
    let b3: u8 = ((pix >> 24) & 0xFF) as u8;
    let total: usize = (width as usize) * (height as usize);
    proof {
        assert(width as nat * height as nat * 4 <= usize::MAX);
        assert((width as usize) * (height as usize) == width as nat * height as nat)
            by (nonlinear_arith);
    }
    let mut out: Vec<u8> = Vec::new();
    let mut p: usize = 0;
    while p < total
        invariant
            p <= total,
            total == width as nat * height as nat,
            total * 4 <= usize::MAX,
            out@.len() == 4 * p,
            b0 == pixel_bytes(argb_pixel_spec(color))[0],
            b1 == pixel_bytes(argb_pixel_spec(color))[1],
            b2 == pixel_bytes(argb_pixel_spec(color))[2],
            b3 == pixel_bytes(argb_pixel_spec(color))[3],
            forall|q: int| 0 <= q < p ==> #[trigger] out@.subrange(4 * q, 4 * q + 4)
                == pixel_bytes(argb_pixel_spec(color)),
        decreases total - p,
    {
        let ghost out0 = out@;
        out.push(b0);
        out.push(b1);
        out.push(b2);
        out.push(b3);
        proof {
            assert(out@.subrange(4 * p as int, 4 * p + 4 as int) =~= pixel_bytes(
                argb_pixel_spec(color),
            ));
            assert forall|q: int| 0 <= q < p implies #[trigger] out@.subrange(4 * q, 4 * q + 4)
                == pixel_bytes(argb_pixel_spec(color)) by {
                assert(out@.subrange(4 * q, 4 * q + 4) =~= out0.subrange(4 * q, 4 * q + 4));
            }
        }
        p = p + 1;
    }
    out
}

} // verus!
