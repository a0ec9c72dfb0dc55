//! The plot registry: the insertion-ordered collection of plotted functions,
//! each carrying the name under which the evaluation context resolves its
//! body and the palette color assigned at registration time.
use vstd::prelude::*;

use crate::color::{palette, palette_color, Color, PALETTE_LEN};
use crate::transform::{Viewport, DIM_LIMIT, SF_LIMIT};
use crate::zoom::{ZoomState, SCALE_ONE};

verus! {

/// The grid-line pitch in pixels at neutral zoom.
pub const GRID_SPACING: i64 = 20;

/// One plotted function: a lookup key into the shared evaluation context,
/// plus the color the registry assigned to it.
#[derive(Clone, Debug)]
pub struct GraphEntry {
    pub func_name: String,
    pub rgb: Color,
}

impl GraphEntry {
    /// A fresh entry for `func_name`, still colored black.
    pub fn from_name(func_name: String) -> (e: GraphEntry)
        ensures
            e.func_name == func_name,
            e.rgb == (Color { r: 0, g: 0, b: 0 }),
    {
        GraphEntry { func_name, rgb: Color { r: 0, g: 0, b: 0 } }
    }

    /// The same entry with its color replaced.
    pub fn rgb(self, rgb: Color) -> (e: GraphEntry)
        ensures
            e.func_name == self.func_name,
            e.rgb == rgb,
    {
        GraphEntry { rgb, ..self }
    }
}

/// The plotter state: the current zoom scale and the registered functions,
/// in insertion order, which is also draw order and label stacking order.
pub struct Graph {
    pub zoom: ZoomState,
    pub entries: Vec<GraphEntry>,
}

impl Graph {
    /// Every entry wears the palette color of its index, cycling; the zoom
    /// scale never falls below neutral.
    pub open spec fn wf(self) -> bool {
        &&& self.zoom.wf()
        &&& forall|i: int|
            0 <= i < self.entries@.len() ==> (#[trigger] self.entries@[i]).rgb == palette_color(
                i % (PALETTE_LEN as int),
            )
    }

    /// An empty registry at neutral zoom.
    pub fn new() -> (g: Graph)
        ensures
            g.entries@.len() == 0,
            g.zoom.scale == SCALE_ONE,
            g.wf(),
    {
        Graph { zoom: ZoomState::new(), entries: Vec::new() }
    }

    /// Register a function: append an entry named `graph`, colored with the
    /// palette entry at the old length modulo the palette size.
    pub fn add_graph(&mut self, graph: String)
        requires
            old(self).wf(),
        ensures
            final(self).wf(),
            final(self).zoom == old(self).zoom,
            final(self).entries@ == old(self).entries@.push(
                GraphEntry {
                    func_name: graph,
                    rgb: palette_color(old(self).entries@.len() as int % (PALETTE_LEN as int)),
                },
            ),
    {
        let count = self.entries.len() % PALETTE_LEN;
        let next = GraphEntry::from_name(graph).rgb(palette(count));
        self.entries.push(next);
    }

    /// Apply a scroll delta (in thousandths) to the zoom scale; the registry
    /// itself is untouched. Returns whether a redraw is called for.
    pub fn update_scale(&mut self, delta: i64) -> (redraw: bool)
        requires
            old(self).wf(),
            old(self).zoom.candidate(delta) <= i64::MAX,
        ensures
            final(self).wf(),
            final(self).entries == old(self).entries,
            redraw == (old(self).zoom.candidate(delta) >= SCALE_ONE),
            redraw ==> final(self).zoom.scale == old(self).zoom.candidate(delta),
            !redraw ==> final(self).zoom == old(self).zoom,
    {
        self.zoom.update(delta)
    }

    /// Pixels per math unit at the current zoom, in milli-pixels: the fixed
    /// grid pitch of `GRID_SPACING` pixels, scaled by the zoom factor.
    pub fn scale_factor(&self) -> (sf: i64)
        requires
            self.wf(),
            MILLI_PX_PER_SCALE * self.zoom.scale <= i64::MAX,
        ensures
            sf == MILLI_PX_PER_SCALE * self.zoom.scale,
            sf >= GRID_SPACING * 1000,
    {
        MILLI_PX_PER_SCALE * self.zoom.scale
    }

    /// The viewport for one redraw: the given extent in pixels with the
    /// scale factor at the current zoom. `None` where the extent or the
    /// zoom lies beyond what the fixed-point screen range can place.
    pub fn viewport(&self, width: i64, height: i64) -> (r: Option<Viewport>)
        requires
            self.wf(),
        ensures
            r matches Some(vp) ==> {
                &&& vp.wf()
                &&& vp.width == width
                &&& vp.height == height
                &&& vp.scale_factor == MILLI_PX_PER_SCALE * self.zoom.scale
            },
            (r is None) == !(0 <= width <= DIM_LIMIT && 0 <= height <= DIM_LIMIT
                && MILLI_PX_PER_SCALE * self.zoom.scale <= SF_LIMIT),
    {
        if 0 <= width && width <= DIM_LIMIT && 0 <= height && height <= DIM_LIMIT
            && self.zoom.scale <= SCALE_CAP {
            Some(Viewport { width, height, scale_factor: MILLI_PX_PER_SCALE * self.zoom.scale })
        } else {
            None
        }
    }
}

/// The deepest zoom scale a redraw can place on screen: `SF_LIMIT` divided
/// by `MILLI_PX_PER_SCALE`.
pub const SCALE_CAP: i64 = 100000000;

/// Milli-pixels per scale unit: `GRID_SPACING` pixels times 1000 milli per
/// pixel, divided by the `SCALE_ONE` two-thousandths that make one zoom
/// factor — 20 * 1000 / 2000 = 10.
pub const MILLI_PX_PER_SCALE: i64 = 10;

/// Colors assigned by the registry follow the palette, cycling: the entry at
/// `i` wears the palette color at `i` modulo the palette size, however the
/// registry was built up.
pub proof fn lemma_color_cycle(g: Graph, i: int)
    requires
        g.wf(),
        0 <= i < g.entries@.len(),
    ensures
        g.entries@[i].rgb == palette_color(i % (PALETTE_LEN as int)),
{
}

} // verus!
