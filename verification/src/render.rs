//! The renderer: turns the plotter state into the ordered list of drawing
//! commands for one full redraw — clear, grid and axes, then one label and
//! one polyline per registered function.
//!
//! The commands are plain values; the drawing surface that consumes them
//! lives outside. Positions are in micro-pixels, widths and font sizes in
//! milli-pixels.
use vstd::prelude::*;

use crate::color::{axis_color, background_color, grid_color, Color};
use crate::graph::{Graph, GraphEntry, GRID_SPACING};
use crate::sampler::{collect_samples, generate_seq, lemma_generate_seq_sound, witnessed, Sample};
use crate::transform::{
    screen_x, screen_y, to_screen, ScreenPoint, Viewport, COORD_LIMIT, DIM_LIMIT, HALF_PIXEL_MICRO,
};

verus! {

/// Micro-pixels per pixel.
pub const MICRO_PER_PIXEL: i64 = 1000000;

/// Stroke width for grid lines, in milli-pixels.
pub const LINE_WIDTH_MILLI: i64 = 500;

/// Label font size, in milli-pixels.
pub const FONT_SIZE_MILLI: i64 = 18000;

/// Label font size, in micro-pixels: the vertical pitch of label stacking.
pub const FONT_SIZE_MICRO: i64 = 18000000;

/// Horizontal position of the labels, in micro-pixels.
pub const LABEL_X_MICRO: i64 = 10000000;

/// One drawing primitive for the external surface.
#[derive(Clone, Debug, PartialEq)]
pub enum DrawCmd {
    /// Make `0` the current source color.
    SetColor(Color),
    /// Set the stroke width, in milli-pixels.
    SetLineWidth(i64),
    /// Fill the whole surface with the current color.
    Paint,
    /// Start a fresh path.
    NewPath,
    /// Move the cursor without drawing.
    MoveTo(ScreenPoint),
    /// Extend the path with a segment from the cursor.
    LineTo(ScreenPoint),
    /// Stroke the current path with the current color.
    Stroke,
    /// Set the label font size, in milli-pixels.
    SetFontSize(i64),
    /// Draw text at the cursor in the current color.
    ShowText(String),
}

/// Clearing the canvas: paint everything in the background color.
pub open spec fn background_cmds() -> Seq<DrawCmd> {
    seq![
        DrawCmd::SetColor(Color { r: 230, g: 230, b: 230 }),
        DrawCmd::Paint,
    ]
}

/// The `i`-th horizontal grid line: a full-width stroke at `i` grid pitches
/// below the top edge.
pub open spec fn hline_cmds(i: int, width: int) -> Seq<DrawCmd> {
    seq![
        DrawCmd::MoveTo(ScreenPoint { sx: 0, sy: (i * GRID_SPACING * MICRO_PER_PIXEL) as i64 }),
        DrawCmd::LineTo(
            ScreenPoint {
                sx: (width * MICRO_PER_PIXEL) as i64,
                sy: (i * GRID_SPACING * MICRO_PER_PIXEL) as i64,
            },
        ),
    ]
}

/// The first `n` horizontal grid lines, top down.
pub open spec fn hlines_cmds(n: int, width: int) -> Seq<DrawCmd>
    decreases n,
{
    if n <= 0 {
        Seq::empty()
    } else {
        hlines_cmds(n - 1, width) + hline_cmds(n, width)
    }
}

/// The `i`-th vertical grid line: a full-height stroke at `i` grid pitches
/// right of the left edge.
pub open spec fn vline_cmds(i: int, height: int) -> Seq<DrawCmd> {
    seq![
        DrawCmd::MoveTo(ScreenPoint { sx: (i * GRID_SPACING * MICRO_PER_PIXEL) as i64, sy: 0 }),
        DrawCmd::LineTo(
            ScreenPoint {
                sx: (i * GRID_SPACING * MICRO_PER_PIXEL) as i64,
                sy: (height * MICRO_PER_PIXEL) as i64,
            },
        ),
    ]
}

/// The first `n` vertical grid lines, left to right.
pub open spec fn vlines_cmds(n: int, height: int) -> Seq<DrawCmd>
    decreases n,
{
    if n <= 0 {
        Seq::empty()
    } else {
        vlines_cmds(n - 1, height) + vline_cmds(n, height)
    }
}

/// The two bold axis lines through the viewport center.
pub open spec fn axes_cmds(width: int, height: int) -> Seq<DrawCmd> {
    seq![
        DrawCmd::SetColor(Color { r: 77, g: 77, b: 77 }),
        DrawCmd::NewPath,
        DrawCmd::MoveTo(ScreenPoint { sx: (width * HALF_PIXEL_MICRO) as i64, sy: 0 }),
        DrawCmd::LineTo(
            ScreenPoint {
                sx: (width * HALF_PIXEL_MICRO) as i64,
                sy: (height * MICRO_PER_PIXEL) as i64,
            },
        ),
        DrawCmd::MoveTo(ScreenPoint { sx: 0, sy: (height * HALF_PIXEL_MICRO) as i64 }),
        DrawCmd::LineTo(
            ScreenPoint {
                sx: (width * MICRO_PER_PIXEL) as i64,
                sy: (height * HALF_PIXEL_MICRO) as i64,
            },
        ),
        DrawCmd::Stroke,
    ]
}

/// The full grid pass: thin gray lines at the fixed pixel pitch — the grid
/// does not scale with zoom — then the axis pair.
pub open spec fn grid_cmds(width: int, height: int) -> Seq<DrawCmd> {
    seq![
        DrawCmd::SetLineWidth(LINE_WIDTH_MILLI),
        DrawCmd::SetColor(Color { r: 153, g: 153, b: 153 }),
        DrawCmd::NewPath,
    ] + hlines_cmds(height / GRID_SPACING as int, width) + vlines_cmds(
        width / GRID_SPACING as int,
        height,
    ) + seq![DrawCmd::Stroke] + axes_cmds(width, height)
}

/// Emit the grid and axis commands for a viewport of the given extent.
pub fn draw_grid(width: i64, height: i64) -> (cmds: Vec<DrawCmd>)
    requires
        0 <= width <= DIM_LIMIT,
        0 <= height <= DIM_LIMIT,
    ensures
        cmds@ == grid_cmds(width as int, height as int),
{
    let mut cmds: Vec<DrawCmd> = Vec::new();
    cmds.push(DrawCmd::SetLineWidth(LINE_WIDTH_MILLI));
    cmds.push(DrawCmd::SetColor(grid_color()));
    cmds.push(DrawCmd::NewPath);
    let ghost head = cmds@;
    proof {
        assert(head =~= seq![
            DrawCmd::SetLineWidth(LINE_WIDTH_MILLI),
            DrawCmd::SetColor(Color { r: 153, g: 153, b: 153 }),
            DrawCmd::NewPath,
        ]);
    }
    let linesv = ((height as u64) / (GRID_SPACING as u64)) as i64;
    let mut i: i64 = 1;
    while i <= linesv
        invariant
            0 <= width <= DIM_LIMIT,
            0 <= height <= DIM_LIMIT,
            linesv == height as int / GRID_SPACING as int,
            0 <= linesv <= DIM_LIMIT,
            1 <= i <= linesv + 1,
            cmds@ == head + hlines_cmds(i - 1, width as int),
        decreases linesv + 1 - i,
    {
        let y = i * GRID_SPACING * MICRO_PER_PIXEL;
        cmds.push(DrawCmd::MoveTo(ScreenPoint { sx: 0, sy: y }));
        cmds.push(DrawCmd::LineTo(ScreenPoint { sx: width * MICRO_PER_PIXEL, sy: y }));
        proof {
            assert(cmds@ =~= head + hlines_cmds(i as int, width as int));
        }
        i = i + 1;
    }
    let linesh = ((width as u64) / (GRID_SPACING as u64)) as i64;
    let ghost mid = head + hlines_cmds(linesv as int, width as int);
    let mut i: i64 = 1;
    while i <= linesh
        invariant
            0 <= width <= DIM_LIMIT,
            0 <= height <= DIM_LIMIT,
            linesh == width as int / GRID_SPACING as int,
            0 <= linesh <= DIM_LIMIT,
            1 <= i <= linesh + 1,
            cmds@ == mid + vlines_cmds(i - 1, height as int),
        decreases linesh + 1 - i,
    {
        let x = i * GRID_SPACING * MICRO_PER_PIXEL;
        cmds.push(DrawCmd::MoveTo(ScreenPoint { sx: x, sy: 0 }));
        cmds.push(DrawCmd::LineTo(ScreenPoint { sx: x, sy: height * MICRO_PER_PIXEL }));
        proof {
            assert(cmds@ =~= mid + vlines_cmds(i as int, height as int));
        }
        i = i + 1;
    }
    cmds.push(DrawCmd::Stroke);
    cmds.push(DrawCmd::SetColor(axis_color()));
    cmds.push(DrawCmd::NewPath);
    let cx = width * HALF_PIXEL_MICRO;
    let cy = height * HALF_PIXEL_MICRO;
    cmds.push(DrawCmd::MoveTo(ScreenPoint { sx: cx, sy: 0 }));
    cmds.push(DrawCmd::LineTo(ScreenPoint { sx: cx, sy: height * MICRO_PER_PIXEL }));
    cmds.push(DrawCmd::MoveTo(ScreenPoint { sx: 0, sy: cy }));
    cmds.push(DrawCmd::LineTo(ScreenPoint { sx: width * MICRO_PER_PIXEL, sy: cy }));
    cmds.push(DrawCmd::Stroke);
    proof {
        assert(cmds@ =~= grid_cmds(width as int, height as int));
    }
    cmds
}

/// Most entries a redraw accepts; keeps label positions representable.
pub const ENTRY_LIMIT: i64 = 1000000;

/// What resolving and evaluating one registered function produced: either
/// the name no longer resolves in the evaluation context, or one outcome
/// per domain point (`None` where evaluation failed or the result fell
/// outside the representable range).
#[derive(Clone, Debug, PartialEq)]
pub enum FunctionEval {
    Missing,
    Evaluated(Vec<Option<i64>>),
}

/// The fatal condition of a redraw: the entry at `index` is registered but
/// its name no longer resolves in the evaluation context.
#[derive(Clone, Debug, PartialEq)]
pub struct RenderError {
    pub index: usize,
    pub func_name: String,
}

/// An evaluation outcome fits a sample walk over `xs`: one outcome per
/// point, each success within the representable coordinate range.
pub open spec fn eval_wf(e: FunctionEval, xs: Seq<i64>) -> bool {
    match e {
        FunctionEval::Evaluated(ys) => {
            &&& ys@.len() == xs.len()
            &&& forall|i: int|
                0 <= i < ys@.len() ==> ((#[trigger] ys@[i]) matches Some(y) ==> -COORD_LIMIT <= y
                    <= COORD_LIMIT)
        },
        FunctionEval::Missing => true,
    }
}

/// Where a sample lands on screen.
pub open spec fn screen_of(s: Sample, vp: Viewport) -> ScreenPoint {
    ScreenPoint {
        sx: screen_x(s.x as int, vp.width as int, vp.scale_factor as int) as i64,
        sy: screen_y(s.y as int, vp.height as int, vp.scale_factor as int) as i64,
    }
}

/// The label of the entry at `k`: its name, in its color, at the fixed
/// horizontal offset, stacked by index.
pub open spec fn label_cmds(entry: GraphEntry, k: int) -> Seq<DrawCmd> {
    seq![
        DrawCmd::SetColor(entry.rgb),
        DrawCmd::SetFontSize(FONT_SIZE_MILLI),
        DrawCmd::MoveTo(
            ScreenPoint { sx: LABEL_X_MICRO, sy: (FONT_SIZE_MICRO + FONT_SIZE_MICRO * k) as i64 },
        ),
        DrawCmd::ShowText(entry.func_name),
    ]
}

/// The segments that connect each sample after the first to its
/// predecessor.
pub open spec fn polyline_cmds(samples: Seq<Sample>, vp: Viewport) -> Seq<DrawCmd>
    decreases samples.len(),
{
    if samples.len() <= 1 {
        Seq::empty()
    } else {
        polyline_cmds(samples.drop_last(), vp) + seq![
            DrawCmd::LineTo(screen_of(samples.last(), vp)),
        ]
    }
}

/// A curve: move to the first sample, connect the rest, stroke. An empty
/// sample sequence draws nothing.
pub open spec fn curve_cmds(samples: Seq<Sample>, vp: Viewport) -> Seq<DrawCmd> {
    if samples.len() == 0 {
        Seq::empty()
    } else {
        seq![DrawCmd::NewPath, DrawCmd::MoveTo(screen_of(samples[0], vp))] + polyline_cmds(
            samples,
            vp,
        ) + seq![DrawCmd::Stroke]
    }
}

/// Everything drawn for the entry at `k`: its label, then its curve built
/// from the successful evaluations.
pub open spec fn entry_cmds(
    entry: GraphEntry,
    k: int,
    e: FunctionEval,
    xs: Seq<i64>,
    vp: Viewport,
) -> Seq<DrawCmd> {
    match e {
        FunctionEval::Evaluated(ys) => label_cmds(entry, k) + curve_cmds(
            collect_samples(xs, ys@),
            vp,
        ),
        FunctionEval::Missing => label_cmds(entry, k),
    }
}

/// Everything drawn for the first `n` entries, in insertion order.
pub open spec fn entries_cmds(
    entries: Seq<GraphEntry>,
    evals: Seq<FunctionEval>,
    xs: Seq<i64>,
    vp: Viewport,
    n: int,
) -> Seq<DrawCmd>
    decreases n,
{
    if n <= 0 {
        Seq::empty()
    } else {
        entries_cmds(entries, evals, xs, vp, n - 1) + entry_cmds(
            entries[n - 1],
            n - 1,
            evals[n - 1],
            xs,
            vp,
        )
    }
}

/// One full successful redraw: clear, grid and axes, then every entry.
pub open spec fn redraw_cmds(
    entries: Seq<GraphEntry>,
    evals: Seq<FunctionEval>,
    xs: Seq<i64>,
    vp: Viewport,
) -> Seq<DrawCmd> {
    background_cmds() + grid_cmds(vp.width as int, vp.height as int) + entries_cmds(
        entries,
        evals,
        xs,
        vp,
        entries.len() as int,
    )
}

/// Every sample assembled from in-range points and in-range outcomes is
/// itself in range on both axes.
proof fn lemma_samples_in_range(xs: Seq<i64>, ys: Seq<Option<i64>>)
    requires
        xs.len() == ys.len(),
        forall|i: int| 0 <= i < xs.len() ==> -COORD_LIMIT <= #[trigger] xs[i] <= COORD_LIMIT,
        forall|i: int|
            0 <= i < ys.len() ==> ((#[trigger] ys[i]) matches Some(y) ==> -COORD_LIMIT <= y
                <= COORD_LIMIT),
    ensures
        forall|j: int|
            0 <= j < collect_samples(xs, ys).len() ==> -COORD_LIMIT <= (#[trigger] collect_samples(
                xs,
                ys,
            )[j]).x <= COORD_LIMIT && -COORD_LIMIT <= collect_samples(xs, ys)[j].y <= COORD_LIMIT,
{
    lemma_generate_seq_sound(xs, ys);
    assert forall|j: int| 0 <= j < collect_samples(xs, ys).len() implies -COORD_LIMIT <= (
    #[trigger] collect_samples(xs, ys)[j]).x <= COORD_LIMIT && -COORD_LIMIT <= collect_samples(
        xs,
        ys,
    )[j].y <= COORD_LIMIT by {
        let s = collect_samples(xs, ys)[j];
        assert(witnessed(s, xs, ys));
        let i = choose|i: int| 0 <= i < xs.len() && xs[i] == s.x && ys[i] == Some(s.y);
        assert(-COORD_LIMIT <= xs[i] <= COORD_LIMIT);
        assert(ys[i] matches Some(y) ==> -COORD_LIMIT <= y <= COORD_LIMIT);
    }
}

impl Graph {
    /// Run one full redraw. `vp` carries the viewport extent and the current
    /// scale factor; `xs` the domain points the caller evaluated at; and
    /// `evals` one resolution-and-evaluation record per registered entry.
    ///
    /// On success the commands of the whole pass come back. If some entry no
    /// longer resolves in the evaluation context, the redraw aborts at the
    /// first such entry — a deliberately fatal condition — and reports it.
    pub fn draw(
        &self,
        vp: &Viewport,
        xs: &Vec<i64>,
        evals: &Vec<FunctionEval>,
    ) -> (r: Result<Vec<DrawCmd>, RenderError>)
        requires
            self.wf(),
            vp.wf(),
            evals@.len() == self.entries@.len(),
            self.entries@.len() <= ENTRY_LIMIT,
            forall|i: int| 0 <= i < xs@.len() ==> -COORD_LIMIT <= #[trigger] xs@[i] <= COORD_LIMIT,
            forall|k: int| 0 <= k < evals@.len() ==> eval_wf(#[trigger] evals@[k], xs@),
        ensures
            (r is Err) == (exists|k: int| 0 <= k < evals@.len() && (#[trigger] evals@[k]) is Missing),
            r matches Err(e) ==> {
                &&& 0 <= e.index < evals@.len()
                &&& evals@[e.index as int] is Missing
                &&& forall|j: int| 0 <= j < e.index ==> !((#[trigger] evals@[j]) is Missing)
                &&& e.func_name == self.entries@[e.index as int].func_name
            },
            r matches Ok(cmds) ==> cmds@ == redraw_cmds(self.entries@, evals@, xs@, *vp),
    {
        let mut cmds: Vec<DrawCmd> = Vec::new();
        cmds.push(DrawCmd::SetColor(background_color()));
        cmds.push(DrawCmd::Paint);
        let mut grid = draw_grid(vp.width, vp.height);
        cmds.append(&mut grid);
        let ghost base = background_cmds() + grid_cmds(vp.width as int, vp.height as int);
        proof {
            assert(cmds@ =~= base);
        }
        let mut k: usize = 0;
        while k < evals.len()
            invariant
                self.wf(),
                vp.wf(),
                evals@.len() == self.entries@.len(),
                self.entries@.len() <= ENTRY_LIMIT,
                forall|i: int|
                    0 <= i < xs@.len() ==> -COORD_LIMIT <= #[trigger] xs@[i] <= COORD_LIMIT,
                forall|kk: int| 0 <= kk < evals@.len() ==> eval_wf(#[trigger] evals@[kk], xs@),
                0 <= k <= evals@.len(),
                base == background_cmds() + grid_cmds(vp.width as int, vp.height as int),
                cmds@ == base + entries_cmds(self.entries@, evals@, xs@, *vp, k as int),
                forall|j: int| 0 <= j < k ==> !((#[trigger] evals@[j]) is Missing),
            decreases evals@.len() - k,
        {
            let entry = &self.entries[k];
            cmds.push(DrawCmd::SetColor(entry.rgb));
            cmds.push(DrawCmd::SetFontSize(FONT_SIZE_MILLI));
            let label_y = FONT_SIZE_MICRO + FONT_SIZE_MICRO * (k as i64);
            cmds.push(DrawCmd::MoveTo(ScreenPoint { sx: LABEL_X_MICRO, sy: label_y }));
            cmds.push(DrawCmd::ShowText(entry.func_name.clone()));
            let ghost with_label = base + entries_cmds(self.entries@, evals@, xs@, *vp, k as int)
                + label_cmds(self.entries@[k as int], k as int);
            proof {
                assert(cmds@ =~= with_label);
            }
            match &evals[k] {
                FunctionEval::Missing => {
                    proof {
                        assert(evals@[k as int] is Missing);
                    }
                    return Err(
                        RenderError { index: k, func_name: self.entries[k].func_name.clone() },
                    );
                },
                FunctionEval::Evaluated(ys) => {
                    proof {
                        assert(eval_wf(evals@[k as int], xs@));
                        lemma_samples_in_range(xs@, ys@);
                    }
                    let samples = generate_seq(xs, ys);
                    if samples.len() > 0 {
                        cmds.push(DrawCmd::NewPath);
                        let s0 = samples[0];
                        let p0 = to_screen(s0.x, s0.y, vp);
                        cmds.push(DrawCmd::MoveTo(p0));
                        let ghost curve_head = with_label + seq![
                            DrawCmd::NewPath,
                            DrawCmd::MoveTo(screen_of(samples@[0], *vp)),
                        ];
                        proof {
                            assert(cmds@ =~= curve_head + polyline_cmds(
                                samples@.subrange(0, 1),
                                *vp,
                            ));
                        }
                        let mut j: usize = 1;
                        while j < samples.len()
                            invariant
                                vp.wf(),
                                1 <= j <= samples@.len(),
                                samples@ == collect_samples(xs@, ys@),
                                forall|jj: int|
                                    0 <= jj < samples@.len() ==> -COORD_LIMIT <= (
                                    #[trigger] samples@[jj]).x <= COORD_LIMIT && -COORD_LIMIT
                                        <= samples@[jj].y <= COORD_LIMIT,
                                curve_head == with_label + seq![
                                    DrawCmd::NewPath,
                                    DrawCmd::MoveTo(screen_of(samples@[0], *vp)),
                                ],
                                cmds@ == curve_head + polyline_cmds(
                                    samples@.subrange(0, j as int),
                                    *vp,
                                ),
                            decreases samples@.len() - j,
                        {
                            let s = samples[j];
                            let p = to_screen(s.x, s.y, vp);
                            cmds.push(DrawCmd::LineTo(p));
                            proof {
                                let pre = samples@.subrange(0, j + 1);
                                assert(pre.drop_last() =~= samples@.subrange(0, j as int));
                                assert(pre.last() == samples@[j as int]);
                                assert(cmds@ =~= curve_head + polyline_cmds(pre, *vp));
                            }
                            j = j + 1;
                        }
                        cmds.push(DrawCmd::Stroke);
                        proof {
                            assert(samples@.subrange(0, samples@.len() as int) =~= samples@);
                            assert(cmds@ =~= with_label + curve_cmds(samples@, *vp));
                        }
                    } else {
                        proof {
                            assert(curve_cmds(samples@, *vp) =~= Seq::empty());
                        }
                    }
                    proof {
                        assert(cmds@ =~= base + entries_cmds(
                            self.entries@,
                            evals@,
                            xs@,
                            *vp,
                            k + 1,
                        ));
                    }
                },
            }
            k = k + 1;
        }
        proof {
            assert(cmds@ =~= redraw_cmds(self.entries@, evals@, xs@, *vp));
        }
        Ok(cmds)
    }
}

} // verus!
