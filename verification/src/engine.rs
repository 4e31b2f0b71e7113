//! The viewport engine: state, input routing, per-frame decisions.
//!
//! The engine owns the columns, the axis selection, the visual parameters,
//! the projection, the mouse state and the render pipeline.  One call of
//! [`Engine::handle_event`] applies one input event's mutations and reports
//! whether the point geometry must be rebuilt and whether the program should
//! exit; everything the GPU needs (transform, uniforms, render decisions)
//! is read back through contracted methods.

use vstd::prelude::*;
use crate::cfg::{
    GAMMA_DEFAULT, GAMMA_MAX, GAMMA_MIN, LOWRES_DIVISOR, POINTSIZE_DEFAULT, POINTSIZE_MAX,
    POINTSIZE_MIN, SHOWBORDER_DEFAULT,
};
use crate::column::{Column, Point, points_from_columns};
use crate::frac::Frac;
use crate::pipeline::{RenderPhase, RenderPipeline, WindowDims};
use crate::projection::{
    adjusted_delta_xy, adjusted_delta_z, adjusted_scale_xy, adjusted_scale_z, pos_rel_x, pos_rel_y,
    zoomed_delta, zoomed_scale, Projection,
};
use crate::rat::{rat_add, rat_div, rat_int, rat_mul, rat_sub, rat_le, Rat, DEN_MAX};
use crate::selector::{cyc_next, cyc_prev, ColumnState};
use crate::viewstate::{param_step_down, param_step_up, UserState};

verus! {

/// The keys the viewer reacts to.
#[derive(Clone, Copy, Debug, PartialEq, Eq, Structural)]
pub enum Key {
    Escape,
    Q,
    B,
    J,
    K,
    N,
    M,
    R,
    Left,
    Right,
    Up,
    Down,
    PageUp,
    PageDown,
    Other,
}

/// One raw input event, already translated into plain values.
#[derive(Clone, Copy, Debug, PartialEq, Eq, Structural)]
pub enum InputEvent {
    Closed,
    KeyPressed(Key),
    MousePressed,
    MouseReleased,
    MouseMoved { x: i32, y: i32 },
    Scroll { dx: i32, dy: i32 },
    Resized { width: u32, height: u32 },
    Other,
}

/// The last seen pointer position and button state.
#[derive(Clone, Copy, Debug, PartialEq, Eq, Structural)]
pub struct MouseState {
    pub x: u32,
    pub y: u32,
    pub down: bool,
}

impl MouseState {
    pub fn new() -> (r: MouseState)
        ensures
            r.x == 0,
            r.y == 0,
            !r.down,
    {
        MouseState { x: 0, y: 0, down: false }
    }
}

/// An event that ends the run loop.
pub open spec fn is_quit_event(ev: InputEvent) -> bool {
    ||| ev == InputEvent::Closed
    ||| ev == InputEvent::KeyPressed(Key::Escape)
    ||| ev == InputEvent::KeyPressed(Key::Q)
}

/// An event that changes the selected axis columns, so the point geometry
/// must be rebuilt.
pub open spec fn is_rebuild_event(ev: InputEvent) -> bool {
    ||| ev == InputEvent::KeyPressed(Key::Left)
    ||| ev == InputEvent::KeyPressed(Key::Right)
    ||| ev == InputEvent::KeyPressed(Key::Up)
    ||| ev == InputEvent::KeyPressed(Key::Down)
    ||| ev == InputEvent::KeyPressed(Key::PageUp)
    ||| ev == InputEvent::KeyPressed(Key::PageDown)
}

/// The rebuild/exit flags a batch of events produces: events are taken in
/// arrival order, and the batch stops at the first quit event.
pub open spec fn batch_flags(evs: Seq<InputEvent>) -> (bool, bool)
    decreases evs.len(),
{
    if evs.len() == 0 {
        (false, false)
    } else if is_quit_event(evs[0]) {
        (false, true)
    } else {
        let rest = batch_flags(evs.drop_first());
        (rest.0 || is_rebuild_event(evs[0]), rest.1)
    }
}

/// The x-axis coefficients renormalized to `col`'s bounds (untouched when
/// the column has no values).
pub open spec fn x_fields_adjusted(pre: Projection, post: Projection, col: Column) -> bool {
    if col.has_values {
        &&& post.scale_x@ == adjusted_scale_xy(pre.scale_x@, col.min as int, col.max as int)
        &&& post.delta_x@ == adjusted_delta_xy(post.scale_x@, col.min as int, col.max as int)
    } else {
        post.scale_x == pre.scale_x && post.delta_x == pre.delta_x
    }
}

pub open spec fn y_fields_adjusted(pre: Projection, post: Projection, col: Column) -> bool {
    if col.has_values {
        &&& post.scale_y@ == adjusted_scale_xy(pre.scale_y@, col.min as int, col.max as int)
        &&& post.delta_y@ == adjusted_delta_xy(post.scale_y@, col.min as int, col.max as int)
    } else {
        post.scale_y == pre.scale_y && post.delta_y == pre.delta_y
    }
}

pub open spec fn z_fields_adjusted(pre: Projection, post: Projection, col: Column) -> bool {
    if col.has_values {
        &&& post.scale_z@ == adjusted_scale_z(pre.scale_z@, col.min as int, col.max as int)
        &&& post.delta_z@ == adjusted_delta_z(post.scale_z@, col.min as int, col.max as int)
    } else {
        post.scale_z == pre.scale_z && post.delta_z == pre.delta_z
    }
}

/// Only the x axis was renormalized.
pub open spec fn x_axis_adjusted(pre: Projection, post: Projection, col: Column) -> bool {
    &&& x_fields_adjusted(pre, post, col)
    &&& post.scale_y == pre.scale_y && post.delta_y == pre.delta_y
    &&& post.scale_z == pre.scale_z && post.delta_z == pre.delta_z
}

/// Only the y axis was renormalized.
pub open spec fn y_axis_adjusted(pre: Projection, post: Projection, col: Column) -> bool {
    &&& y_fields_adjusted(pre, post, col)
    &&& post.scale_x == pre.scale_x && post.delta_x == pre.delta_x
    &&& post.scale_z == pre.scale_z && post.delta_z == pre.delta_z
}

/// Only the z axis was renormalized.
pub open spec fn z_axis_adjusted(pre: Projection, post: Projection, col: Column) -> bool {
    &&& z_fields_adjusted(pre, post, col)
    &&& post.scale_x == pre.scale_x && post.delta_x == pre.delta_x
    &&& post.scale_y == pre.scale_y && post.delta_y == pre.delta_y
}

/// All three axes renormalized to their selected columns' bounds.
pub open spec fn all_axes_adjusted(
    pre: Projection,
    post: Projection,
    cx: Column,
    cy: Column,
    cz: Column,
) -> bool {
    &&& x_fields_adjusted(pre, post, cx)
    &&& y_fields_adjusted(pre, post, cy)
    &&& z_fields_adjusted(pre, post, cz)
}

/// The whole engine state.
pub struct Engine {
    pub window: WindowDims,
    pub columns: Vec<Column>,
    pub m: usize,
    pub n: usize,
    pub column_state: ColumnState,
    pub user_state: UserState,
    pub projection: Projection,
    pub mouse: MouseState,
    pub pipeline: RenderPipeline,
}

/// The data and viewport fields an input event never touches.
pub open spec fn core_unchanged(pre: Engine, post: Engine) -> bool {
    &&& post.window == pre.window
    &&& post.columns == pre.columns
    &&& post.m == pre.m
    &&& post.n == pre.n
}

/// The pipeline was marked dirty, its timer left alone.
pub open spec fn made_dirty(pre: Engine, post: Engine) -> bool {
    &&& post.pipeline.phase == RenderPhase::Dirty
    &&& post.pipeline.lowres_since == pre.pipeline.lowres_since
}

/// Only the mouse state may differ.
pub open spec fn only_mouse_changed(pre: Engine, post: Engine) -> bool {
    &&& core_unchanged(pre, post)
    &&& post.column_state == pre.column_state
    &&& post.user_state == pre.user_state
    &&& post.projection == pre.projection
    &&& post.pipeline == pre.pipeline
}

impl Engine {
    pub open spec fn wf(self) -> bool {
        &&& self.m == self.columns@.len()
        &&& 2 <= self.m
        &&& self.n <= DEN_MAX
        &&& forall|i: int|
            0 <= i < self.columns@.len() ==> (#[trigger] self.columns@[i]).wf()
                && self.columns@[i].data@.len() == self.n
        &&& self.column_state.wf(self.m as int)
        &&& self.user_state.wf()
        &&& self.projection.wf()
        &&& self.window.width >= 1
        &&& self.window.height >= 1
    }

    /// Renormalize the x axis to the currently selected column's bounds.
    fn adjust_axis_x(&mut self)
        requires
            old(self).wf(),
        ensures
            final(self).wf(),
            x_axis_adjusted(
                old(self).projection,
                final(self).projection,
                old(self).columns@[old(self).column_state.x as int],
            ),
            final(self).window == old(self).window,
            final(self).columns == old(self).columns,
            final(self).m == old(self).m,
            final(self).n == old(self).n,
            final(self).column_state == old(self).column_state,
            final(self).user_state == old(self).user_state,
            final(self).mouse == old(self).mouse,
            final(self).pipeline == old(self).pipeline,
    {
        let idx = self.column_state.x;
        if self.columns[idx].has_values {
            let mn = self.columns[idx].min;
            let mx = self.columns[idx].max;
            self.projection.adjust_x(mn, mx);
        }
    }

    /// Renormalize the y axis to the currently selected column's bounds.
    fn adjust_axis_y(&mut self)
        requires
            old(self).wf(),
        ensures
            final(self).wf(),
            y_axis_adjusted(
                old(self).projection,
                final(self).projection,
                old(self).columns@[old(self).column_state.y as int],
            ),
            final(self).window == old(self).window,
            final(self).columns == old(self).columns,
            final(self).m == old(self).m,
            final(self).n == old(self).n,
            final(self).column_state == old(self).column_state,
            final(self).user_state == old(self).user_state,
            final(self).mouse == old(self).mouse,
            final(self).pipeline == old(self).pipeline,
    {
        let idx = self.column_state.y;
        if self.columns[idx].has_values {
            let mn = self.columns[idx].min;
            let mx = self.columns[idx].max;
            self.projection.adjust_y(mn, mx);
        }
    }

    /// Renormalize the z axis to the currently selected column's bounds.
    fn adjust_axis_z(&mut self)
        requires
            old(self).wf(),
        ensures
            final(self).wf(),
            z_axis_adjusted(
                old(self).projection,
                final(self).projection,
                old(self).columns@[old(self).column_state.z as int],
            ),
            final(self).window == old(self).window,
            final(self).columns == old(self).columns,
            final(self).m == old(self).m,
            final(self).n == old(self).n,
            final(self).column_state == old(self).column_state,
            final(self).user_state == old(self).user_state,
            final(self).mouse == old(self).mouse,
            final(self).pipeline == old(self).pipeline,
    {
        let idx = self.column_state.z;
        if self.columns[idx].has_values {
            let mn = self.columns[idx].min;
            let mx = self.columns[idx].max;
            self.projection.adjust_z(mn, mx);
        }
    }

    /// Build the engine over ingested columns: default parameters, initial
    /// axis selection, projection fitted to the selected columns, and a
    /// first frame pending.
    pub fn new(width: u32, height: u32, columns: Vec<Column>) -> (r: Engine)
        requires
            100 <= width,
            100 <= height,
            2 <= columns@.len(),
            columns@.len() > 0,
            forall|i: int|
                0 <= i < columns@.len() ==> (#[trigger] columns@[i]).wf()
                    && columns@[i].data@.len() == columns@[0].data@.len(),
            columns@[0].data@.len() <= DEN_MAX,
        ensures
            r.wf(),
            r.window == (WindowDims { width, height }),
            r.m == columns@.len(),
            r.n == columns@[0].data@.len(),
            r.columns == columns,
            r.column_state.x == 0,
            r.column_state.y == 1,
            r.column_state.z == if columns@.len() > 2 { 2int } else { 1int },
            r.user_state.gamma@ == rat_int(GAMMA_DEFAULT as int),
            r.user_state.pointsize@ == rat_int(POINTSIZE_DEFAULT as int),
            r.user_state.showborder == SHOWBORDER_DEFAULT,
            r.mouse == (MouseState { x: 0, y: 0, down: false }),
            r.pipeline.phase == RenderPhase::Dirty,
            ({
                let pre = Projection {
                    scale_x: Frac { num: 1, den: 1 },
                    scale_y: Frac { num: 1, den: 1 },
                    scale_z: Frac { num: 1, den: 1 },
                    delta_x: Frac { num: 0, den: 1 },
                    delta_y: Frac { num: 0, den: 1 },
                    delta_z: Frac { num: 0, den: 1 },
                };
                all_axes_adjusted(
                    pre,
                    r.projection,
                    columns@[r.column_state.x as int],
                    columns@[r.column_state.y as int],
                    columns@[r.column_state.z as int],
                )
            }),
    {
        let m = columns.len();
        let n = columns[0].data.len();
        let column_state = ColumnState::new(m);
        let mut e = Engine {
            window: WindowDims { width, height },
            columns,
            m,
            n,
            column_state,
            user_state: UserState::new(),
            projection: Projection::new(),
            mouse: MouseState::new(),
            pipeline: RenderPipeline::new(),
        };
        proof {
            assert(e.projection == Projection {
                scale_x: Frac { num: 1, den: 1 },
                scale_y: Frac { num: 1, den: 1 },
                scale_z: Frac { num: 1, den: 1 },
                delta_x: Frac { num: 0, den: 1 },
                delta_y: Frac { num: 0, den: 1 },
                delta_z: Frac { num: 0, den: 1 },
            });
        }
        e.adjust_axis_x();
        e.adjust_axis_y();
        e.adjust_axis_z();
        e
    }

    /// The point geometry of the currently selected columns.
    pub fn current_points(&self) -> (r: Vec<Point>)
        requires
            self.wf(),
        ensures
            r@.len() == self.n,
            forall|i: int|
                0 <= i < r@.len() ==> {
                    &&& (#[trigger] r@[i]).position[0]
                        == self.columns@[self.column_state.x as int].data@[i]
                    &&& r@[i].position[1] == self.columns@[self.column_state.y as int].data@[i]
                    &&& r@[i].position[2] == self.columns@[self.column_state.z as int].data@[i]
                },
    {
        points_from_columns(&self.columns, self.column_state.x, self.column_state.y, self.column_state.z)
    }

    /// The 4x4 transform for the point shader; the z axis is forced to the
    /// identity when only two columns exist (2D mode).
    pub fn matrix(&self) -> (m: [[Frac; 4]; 4])
        requires
            self.wf(),
        ensures
            m[0][0] == self.projection.scale_x && m[1][1] == self.projection.scale_y,
            m[3][0] == self.projection.delta_x && m[3][1] == self.projection.delta_y,
            m[2][2] == if self.m > 2 { self.projection.scale_z } else { Frac { num: 1, den: 1 } },
            m[3][2] == if self.m > 2 { self.projection.delta_z } else { Frac { num: 0, den: 1 } },
            m[0][1]@ == rat_int(0) && m[0][2]@ == rat_int(0) && m[0][3]@ == rat_int(0),
            m[1][0]@ == rat_int(0) && m[1][2]@ == rat_int(0) && m[1][3]@ == rat_int(0),
            m[2][0]@ == rat_int(0) && m[2][1]@ == rat_int(0) && m[2][3]@ == rat_int(0),
            m[3][3]@ == rat_int(1),
    {
        self.projection.get_matrix(self.m > 2)
    }

    /// The point size to draw with: the configured size, shrunk by the
    /// low-resolution factor when drawing into the proxy target.
    pub fn point_size(&self, lowres: bool) -> (r: Frac)
        requires
            self.wf(),
        ensures
            lowres ==> r@ == rat_mul(
                self.user_state.pointsize@,
                Rat { n: 1, d: LOWRES_DIVISOR as int },
            ),
            !lowres ==> r == self.user_state.pointsize,
    {
        if lowres {
            self.user_state.pointsize.mul(&Frac::new(1, LOWRES_DIVISOR as i64))
        } else {
            self.user_state.pointsize
        }
    }

    /// `1 / n`, the brightness normalization uniform (1 when there are no
    /// points: nothing is drawn then and the value is unused).
    pub fn inv_point_count(&self) -> (r: Frac)
        requires
            self.wf(),
        ensures
            self.n > 0 ==> r@ == (Rat { n: 1, d: self.n as int }),
            self.n == 0 ==> r@ == rat_int(1),
    {
        if self.n > 0 {
            Frac::new(1, self.n as i64)
        } else {
            Frac::from_int(1)
        }
    }

    /// `1 / gamma`, the exponent uniform of the screen composite.
    pub fn inv_gamma(&self) -> (r: Frac)
        requires
            self.wf(),
        ensures
            r.wf(),
            r@ == rat_div(rat_int(1), self.user_state.gamma@),
    {
        proof {
            assert(self.user_state.gamma@.n >= self.user_state.gamma@.d) by {
                assert(rat_le(rat_int(GAMMA_MIN as int), self.user_state.gamma@));
            }
        }
        Frac::from_int(1).div(&self.user_state.gamma)
    }

    /// Route one input event: apply its mutations and report whether the
    /// geometry must be rebuilt and whether the program should exit.
    /// Unrecognized or malformed events change nothing.
    pub fn handle_event(&mut self, ev: &InputEvent) -> (r: (bool, bool))
        requires
            old(self).wf(),
        ensures
            final(self).wf(),
            match *ev {
                InputEvent::Closed => *final(self) == *old(self) && r == (false, true),
                InputEvent::KeyPressed(k) => match k {
                    Key::Escape | Key::Q => *final(self) == *old(self) && r == (false, true),
                    Key::B => {
                        &&& core_unchanged(*old(self), *final(self))
                        &&& made_dirty(*old(self), *final(self))
                        &&& final(self).column_state == old(self).column_state
                        &&& final(self).mouse == old(self).mouse
                        &&& final(self).projection == old(self).projection
                        &&& final(self).user_state.showborder == !old(self).user_state.showborder
                        &&& final(self).user_state.gamma == old(self).user_state.gamma
                        &&& final(self).user_state.pointsize == old(self).user_state.pointsize
                        &&& r == (false, false)
                    },
                    Key::J => {
                        &&& core_unchanged(*old(self), *final(self))
                        &&& made_dirty(*old(self), *final(self))
                        &&& final(self).column_state == old(self).column_state
                        &&& final(self).mouse == old(self).mouse
                        &&& final(self).projection == old(self).projection
                        &&& final(self).user_state.pointsize@ == param_step_up(
                            old(self).user_state.pointsize@,
                            POINTSIZE_MAX as int,
                        )
                        &&& final(self).user_state.gamma == old(self).user_state.gamma
                        &&& final(self).user_state.showborder == old(self).user_state.showborder
                        &&& r == (false, false)
                    },
                    Key::K => {
                        &&& core_unchanged(*old(self), *final(self))
                        &&& made_dirty(*old(self), *final(self))
                        &&& final(self).column_state == old(self).column_state
                        &&& final(self).mouse == old(self).mouse
                        &&& final(self).projection == old(self).projection
                        &&& final(self).user_state.pointsize@ == param_step_down(
                            old(self).user_state.pointsize@,
                            POINTSIZE_MIN as int,
                        )
                        &&& final(self).user_state.gamma == old(self).user_state.gamma
                        &&& final(self).user_state.showborder == old(self).user_state.showborder
                        &&& r == (false, false)
                    },
                    Key::N => {
                        &&& core_unchanged(*old(self), *final(self))
                        &&& made_dirty(*old(self), *final(self))
                        &&& final(self).column_state == old(self).column_state
                        &&& final(self).mouse == old(self).mouse
                        &&& final(self).projection == old(self).projection
                        &&& final(self).user_state.gamma@ == param_step_up(
                            old(self).user_state.gamma@,
                            GAMMA_MAX as int,
                        )
                        &&& final(self).user_state.pointsize == old(self).user_state.pointsize
                        &&& final(self).user_state.showborder == old(self).user_state.showborder
                        &&& r == (false, false)
                    },
                    Key::M => {
                        &&& core_unchanged(*old(self), *final(self))
                        &&& made_dirty(*old(self), *final(self))
                        &&& final(self).column_state == old(self).column_state
                        &&& final(self).mouse == old(self).mouse
                        &&& final(self).projection == old(self).projection
                        &&& final(self).user_state.gamma@ == param_step_down(
                            old(self).user_state.gamma@,
                            GAMMA_MIN as int,
                        )
                        &&& final(self).user_state.pointsize == old(self).user_state.pointsize
                        &&& final(self).user_state.showborder == old(self).user_state.showborder
                        &&& r == (false, false)
                    },
                    Key::R => {
                        &&& core_unchanged(*old(self), *final(self))
                        &&& made_dirty(*old(self), *final(self))
                        &&& final(self).column_state == old(self).column_state
                        &&& final(self).mouse == old(self).mouse
                        &&& all_axes_adjusted(
                            old(self).projection,
                            final(self).projection,
                            old(self).columns@[old(self).column_state.x as int],
                            old(self).columns@[old(self).column_state.y as int],
                            old(self).columns@[old(self).column_state.z as int],
                        )
                        &&& final(self).user_state.gamma@ == rat_int(GAMMA_DEFAULT as int)
                        &&& final(self).user_state.pointsize@ == rat_int(POINTSIZE_DEFAULT as int)
                        &&& final(self).user_state.showborder == SHOWBORDER_DEFAULT
                        &&& r == (false, false)
                    },
                    Key::Left | Key::Right => {
                        let ni = if k == Key::Left {
                            cyc_prev(old(self).column_state.x as int, old(self).m as int)
                        } else {
                            cyc_next(old(self).column_state.x as int, old(self).m as int)
                        };
                        &&& core_unchanged(*old(self), *final(self))
                        &&& made_dirty(*old(self), *final(self))
                        &&& final(self).mouse == old(self).mouse
                        &&& final(self).user_state == old(self).user_state
                        &&& final(self).column_state.x == ni
                        &&& final(self).column_state.y == old(self).column_state.y
                        &&& final(self).column_state.z == old(self).column_state.z
                        &&& x_axis_adjusted(
                            old(self).projection,
                            final(self).projection,
                            old(self).columns@[ni],
                        )
                        &&& r == (true, false)
                    },
                    Key::Up | Key::Down => {
                        let ni = if k == Key::Up {
                            cyc_prev(old(self).column_state.y as int, old(self).m as int)
                        } else {
                            cyc_next(old(self).column_state.y as int, old(self).m as int)
                        };
                        &&& core_unchanged(*old(self), *final(self))
                        &&& made_dirty(*old(self), *final(self))
                        &&& final(self).mouse == old(self).mouse
                        &&& final(self).user_state == old(self).user_state
                        &&& final(self).column_state.y == ni
                        &&& final(self).column_state.x == old(self).column_state.x
                        &&& final(self).column_state.z == old(self).column_state.z
                        &&& y_axis_adjusted(
                            old(self).projection,
                            final(self).projection,
                            old(self).columns@[ni],
                        )
                        &&& r == (true, false)
                    },
                    Key::PageUp | Key::PageDown => {
                        let ni = if k == Key::PageUp {
                            cyc_prev(old(self).column_state.z as int, old(self).m as int)
                        } else {
                            cyc_next(old(self).column_state.z as int, old(self).m as int)
                        };
                        &&& core_unchanged(*old(self), *final(self))
                        &&& made_dirty(*old(self), *final(self))
                        &&& final(self).mouse == old(self).mouse
                        &&& final(self).user_state == old(self).user_state
                        &&& final(self).column_state.z == ni
                        &&& final(self).column_state.x == old(self).column_state.x
                        &&& final(self).column_state.y == old(self).column_state.y
                        &&& z_axis_adjusted(
                            old(self).projection,
                            final(self).projection,
                            old(self).columns@[ni],
                        )
                        &&& r == (true, false)
                    },
                    Key::Other => *final(self) == *old(self) && r == (false, false),
                },
                InputEvent::MousePressed => {
                    &&& only_mouse_changed(*old(self), *final(self))
                    &&& final(self).mouse == (MouseState {
                        x: old(self).mouse.x,
                        y: old(self).mouse.y,
                        down: true,
                    })
                    &&& r == (false, false)
                },
                InputEvent::MouseReleased => {
                    &&& only_mouse_changed(*old(self), *final(self))
                    &&& final(self).mouse == (MouseState {
                        x: old(self).mouse.x,
                        y: old(self).mouse.y,
                        down: false,
                    })
                    &&& r == (false, false)
                },
                InputEvent::MouseMoved { x, y } => {
                    &&& core_unchanged(*old(self), *final(self))
                    &&& final(self).column_state == old(self).column_state
                    &&& final(self).user_state == old(self).user_state
                    &&& final(self).mouse.x == if x < 0 { 0int } else { x as int }
                    &&& final(self).mouse.y == if y < 0 { 0int } else { y as int }
                    &&& final(self).mouse.down == old(self).mouse.down
                    &&& if old(self).mouse.down {
                        &&& made_dirty(*old(self), *final(self))
                        &&& final(self).projection.delta_x@ == rat_add(
                            old(self).projection.delta_x@,
                            rat_div(
                                rat_int(2 * (x - old(self).mouse.x)),
                                rat_int(old(self).window.width as int),
                            ),
                        )
                        &&& final(self).projection.delta_y@ == rat_sub(
                            old(self).projection.delta_y@,
                            rat_div(
                                rat_int(2 * (y - old(self).mouse.y)),
                                rat_int(old(self).window.height as int),
                            ),
                        )
                        &&& final(self).projection.scale_x == old(self).projection.scale_x
                        &&& final(self).projection.scale_y == old(self).projection.scale_y
                        &&& final(self).projection.scale_z == old(self).projection.scale_z
                        &&& final(self).projection.delta_z == old(self).projection.delta_z
                    } else {
                        &&& final(self).projection == old(self).projection
                        &&& final(self).pipeline == old(self).pipeline
                    }
                    &&& r == (false, false)
                },
                InputEvent::Scroll { dx, dy } => {
                    &&& core_unchanged(*old(self), *final(self))
                    &&& made_dirty(*old(self), *final(self))
                    &&& final(self).column_state == old(self).column_state
                    &&& final(self).user_state == old(self).user_state
                    &&& final(self).mouse == old(self).mouse
                    &&& final(self).projection.scale_x@ == zoomed_scale(
                        old(self).projection.scale_x@,
                        dx as int,
                    )
                    &&& final(self).projection.delta_x@ == zoomed_delta(
                        old(self).projection.delta_x@,
                        old(self).projection.scale_x@,
                        final(self).projection.scale_x@,
                        pos_rel_x(old(self).mouse.x as int, old(self).window.width as int),
                    )
                    &&& final(self).projection.scale_y@ == zoomed_scale(
                        old(self).projection.scale_y@,
                        dy as int,
                    )
                    &&& final(self).projection.delta_y@ == zoomed_delta(
                        old(self).projection.delta_y@,
                        old(self).projection.scale_y@,
                        final(self).projection.scale_y@,
                        pos_rel_y(old(self).mouse.y as int, old(self).window.height as int),
                    )
                    &&& final(self).projection.scale_z == old(self).projection.scale_z
                    &&& final(self).projection.delta_z == old(self).projection.delta_z
                    &&& r == (false, false)
                },
                InputEvent::Resized { width, height } => {
                    &&& if width >= 1 && height >= 1 {
                        &&& final(self).window == (WindowDims { width, height })
                        &&& final(self).columns == old(self).columns
                        &&& final(self).m == old(self).m
                        &&& final(self).n == old(self).n
                        &&& made_dirty(*old(self), *final(self))
                        &&& final(self).column_state == old(self).column_state
                        &&& final(self).user_state == old(self).user_state
                        &&& final(self).projection == old(self).projection
                        &&& final(self).mouse == old(self).mouse
                    } else {
                        *final(self) == *old(self)
                    }
                    &&& r == (false, false)
                },
                InputEvent::Other => *final(self) == *old(self) && r == (false, false),
            },
    {
        match *ev {
            InputEvent::Closed => (false, true),
            InputEvent::KeyPressed(k) => match k {
                Key::Escape | Key::Q => (false, true),
                Key::B => {
                    self.user_state.showborder_toggle();
                    self.pipeline.mark_dirty();
                    (false, false)
                },
                Key::J => {
                    self.user_state.pointsize_increase();
                    self.pipeline.mark_dirty();
                    (false, false)
                },
                Key::K => {
                    self.user_state.pointsize_decrease();
                    self.pipeline.mark_dirty();
                    (false, false)
                },
                Key::N => {
                    self.user_state.gamma_increase();
                    self.pipeline.mark_dirty();
                    (false, false)
                },
                Key::M => {
                    self.user_state.gamma_decrease();
                    self.pipeline.mark_dirty();
                    (false, false)
                },
                Key::R => {
                    self.adjust_axis_x();
                    self.adjust_axis_y();
                    self.adjust_axis_z();
                    self.user_state.reset();
                    self.pipeline.mark_dirty();
                    (false, false)
                },
                Key::Left => {
                    let m = self.m;
                    self.column_state.x_prev(m);
                    self.adjust_axis_x();
                    self.pipeline.mark_dirty();
                    (true, false)
                },
                Key::Right => {
                    let m = self.m;
                    self.column_state.x_next(m);
                    self.adjust_axis_x();
                    self.pipeline.mark_dirty();
                    (true, false)
                },
                Key::Up => {
                    let m = self.m;
                    self.column_state.y_prev(m);
                    self.adjust_axis_y();
                    self.pipeline.mark_dirty();
                    (true, false)
                },
                Key::Down => {
                    let m = self.m;
                    self.column_state.y_next(m);
                    self.adjust_axis_y();
                    self.pipeline.mark_dirty();
                    (true, false)
                },
                Key::PageUp => {
                    let m = self.m;
                    self.column_state.z_prev(m);
                    self.adjust_axis_z();
                    self.pipeline.mark_dirty();
                    (true, false)
                },
                Key::PageDown => {
                    let m = self.m;
                    self.column_state.z_next(m);
                    self.adjust_axis_z();
                    self.pipeline.mark_dirty();
                    (true, false)
                },
                Key::Other => (false, false),
            },
            InputEvent::MousePressed => {
                self.mouse.down = true;
                (false, false)
            },
            InputEvent::MouseReleased => {
                self.mouse.down = false;
                (false, false)
            },
            InputEvent::MouseMoved { x, y } => {
                if self.mouse.down {
                    let dx = (x as i64) - (self.mouse.x as i64);
                    let dy = (y as i64) - (self.mouse.y as i64);
                    let w = self.window.width;
                    let h = self.window.height;
                    self.projection.move_x(dx, w);
                    self.projection.move_y(dy, h);
                    self.pipeline.mark_dirty();
                }
                self.mouse.x = if x < 0 {
                    0
                } else {
                    x as u32
                };
                self.mouse.y = if y < 0 {
                    0
                } else {
                    y as u32
                };
                (false, false)
            },
            InputEvent::Scroll { dx, dy } => {
                let mx = self.mouse.x;
                let my = self.mouse.y;
                let w = self.window.width;
                let h = self.window.height;
                self.projection.scroll_x(dx as i64, mx, w);
                self.projection.scroll_y(dy as i64, my, h);
                self.pipeline.mark_dirty();
                (false, false)
            },
            InputEvent::Resized { width, height } => {
                if width >= 1 && height >= 1 {
                    self.window = WindowDims { width, height };
                    self.pipeline.mark_dirty();
                }
                (false, false)
            },
            InputEvent::Other => (false, false),
        }
    }

    /// Drain one frame's batch of events in arrival order, stopping at the
    /// first quit event.
    pub fn handle_events(&mut self, events: &Vec<InputEvent>) -> (r: (bool, bool))
        requires
            old(self).wf(),
        ensures
            final(self).wf(),
            r == batch_flags(events@),
            events@.len() == 0 ==> *final(self) == *old(self),
    {
        let mut rebuild: bool = false;
        let mut i: usize = 0;
        let len = events.len();
        if len == 0 {
            return (false, false);
        }
        proof {
            assert(events@.skip(0) =~= events@);
        }
        while i < len
            invariant
                self.wf(),
                i <= len,
                len == events@.len(),
                batch_flags(events@) == (
                    rebuild || batch_flags(events@.skip(i as int)).0,
                    batch_flags(events@.skip(i as int)).1,
                ),
            decreases len - i,
        {
            let ev = events[i];
            proof {
                assert(events@.skip(i as int)[0] == events@[i as int]);
                assert(events@.skip(i as int).drop_first() =~= events@.skip(i + 1));
            }
            let (rb, exit) = self.handle_event(&ev);
            if exit {
                proof {
                    assert(is_quit_event(events@.skip(i as int)[0]));
                }
                return (rebuild, true);
            }
            proof {
                assert(!is_quit_event(events@.skip(i as int)[0]));
            }
            rebuild = rebuild || rb;
            i = i + 1;
        }
        proof {
            assert(events@.skip(len as int) =~= Seq::<InputEvent>::empty());
        }
        (rebuild, false)
    }
}

} // verus!
