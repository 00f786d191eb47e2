//! The interaction state machine: pointer and wheel messages in, hover,
//! selection and camera requests out.

use vstd::prelude::*;
use crate::coloring::AsyncData;
use crate::points::ReductionViewData;
use crate::selection::{is_selection, select_in_rectangle, Rectangle2D};

verus! {

/// Enum for the currently selected tool.
#[derive(Debug, Clone, Copy, PartialEq, Eq, Structural)]
pub enum CurrentTool {
    Zoom,
    ZoomAll,
    Select,
}

/// What the pointer is in the middle of.
#[derive(Debug, Clone, Copy, PartialEq, Eq, Structural)]
pub enum Gesture {
    Idle,
    Panning,
    SelectingRect,
}

/// Message sent to the view. Positions are in device coordinates.
#[derive(Debug, Clone, Copy, PartialEq)]
pub enum MsgReduction {
    /// The pointer moved to a position; the flag tells whether the primary button is down.
    MouseMove(u32, u32, bool),
    MouseClick,
    /// The wheel turned by a delta.
    MouseWheel(u32),
    MouseStartSelect(u32, u32),
    MouseEndSelect(u32, u32),
    SelectCurrentTool(CurrentTool),
}

/// What the camera and the spatial index report for the position that a
/// message carries: the position in world coordinates, and the point
/// nearest to it, if one is within reach.
#[derive(Debug, Clone, Copy, PartialEq)]
pub struct Probe {
    pub wx: u32,
    pub wy: u32,
    pub nearest: Option<usize>,
}

/// What the owner of the camera is asked to do after a message.
#[derive(Debug, Clone, Copy, PartialEq)]
pub enum CameraAction {
    /// Leave the camera as it is.
    Keep,
    /// Shift the centre so that the world point under `from` comes to lie
    /// under `to`; both are device positions.
    Pan { from: (u32, u32), to: (u32, u32) },
    /// Zoom by the wheel delta around the world point under the device position `at`.
    ZoomAround { at: (u32, u32), delta: u32 },
    /// Fit the camera to the bounds of the loaded point set.
    Fit,
}

/// Everything a message leads to outside the state itself.
#[derive(Debug, Clone, PartialEq)]
pub struct Outcome {
    /// The view has to be drawn again.
    pub redraw: bool,
    /// The hovered point changed: its new value, to be reported once.
    pub hovered: Option<Option<usize>>,
    /// A selection was committed: the selected point ids, ascending.
    pub clicked: Option<Vec<usize>>,
    pub camera: CameraAction,
}

/// The state of the view between messages.
#[derive(Debug, Clone, Copy, PartialEq)]
pub struct ReductionView {
    /// Where the pointer was last seen, in device coordinates.
    pub last_pos: (u32, u32),
    /// The point last reported as hovered.
    pub last_cell: Option<usize>,
    pub current_tool: CurrentTool,
    /// The rectangle being dragged, while a selection is going on.
    pub current_selection: Option<Rectangle2D>,
    /// The last pointer move dragged the camera.
    pub panning: bool,
}

/// What a message commits as a selection.
pub enum Commit {
    /// Nothing is emitted.
    Nothing,
    /// A click: the hovered point alone.
    Single(usize),
    /// A drag: the points strictly inside the rectangle.
    Scan(Rectangle2D),
}

impl ReductionView {
    /// The gesture in progress.
    pub open spec fn spec_gesture(&self) -> Gesture {
        if self.current_selection.is_some() {
            Gesture::SelectingRect
        } else if self.panning {
            Gesture::Panning
        } else {
            Gesture::Idle
        }
    }

    /// A pointer move with this button state drags the camera.
    pub open spec fn drags_camera(&self, press_left: bool) -> bool {
        self.current_tool == CurrentTool::Zoom && press_left
    }

    /// The rectangle in progress with its moving corner at the probed position.
    pub open spec fn stretched(&self, probe: Probe) -> Option<Rectangle2D> {
        match self.current_selection {
            Some(sel) => Some(Rectangle2D { x1: sel.x1, x2: probe.wx, y1: sel.y1, y2: probe.wy }),
            None => None,
        }
    }

    /// The state after a message.
    pub open spec fn next_state(&self, msg: MsgReduction, probe: Probe) -> ReductionView {
        match msg {
            MsgReduction::MouseMove(x, y, press_left) => ReductionView {
                last_pos: (x, y),
                last_cell: probe.nearest,
                current_tool: self.current_tool,
                current_selection: self.stretched(probe),
                panning: self.drags_camera(press_left),
            },
            MsgReduction::MouseClick => *self,
            MsgReduction::MouseWheel(_) => *self,
            MsgReduction::SelectCurrentTool(t) => if t == CurrentTool::ZoomAll {
                *self
            } else {
                ReductionView { current_tool: t, ..*self }
            },
            MsgReduction::MouseStartSelect(_, _) => if self.current_tool == CurrentTool::Select {
                ReductionView {
                    current_selection: Some(Rectangle2D { x1: probe.wx, x2: probe.wx, y1: probe.wy, y2: probe.wy }),
                    ..*self
                }
            } else {
                *self
            },
            MsgReduction::MouseEndSelect(_, _) => ReductionView { current_selection: None, panning: false, ..*self },
        }
    }

    /// The hover report that a message leads to: one is due exactly when a
    /// pointer move finds another nearest point than the one last reported.
    pub open spec fn hover_report(&self, msg: MsgReduction, probe: Probe) -> Option<Option<usize>> {
        match msg {
            MsgReduction::MouseMove(_, _, _) => if self.last_cell != probe.nearest {
                Some(probe.nearest)
            } else {
                None
            },
            _ => None,
        }
    }

    /// The request to the camera that a message leads to.
    pub open spec fn camera_action(&self, msg: MsgReduction, loaded: bool) -> CameraAction {
        match msg {
            MsgReduction::MouseMove(x, y, press_left) => if self.drags_camera(press_left) {
                CameraAction::Pan { from: self.last_pos, to: (x, y) }
            } else {
                CameraAction::Keep
            },
            MsgReduction::MouseWheel(delta) => CameraAction::ZoomAround { at: self.last_pos, delta },
            MsgReduction::SelectCurrentTool(t) => if t == CurrentTool::ZoomAll && loaded {
                CameraAction::Fit
            } else {
                CameraAction::Keep
            },
            _ => CameraAction::Keep,
        }
    }

    /// Whether the view has to be drawn again after a message.
    pub open spec fn wants_redraw(&self, msg: MsgReduction, probe: Probe) -> bool {
        match msg {
            MsgReduction::MouseMove(_, _, press_left) => {
                ||| self.drags_camera(press_left)
                ||| self.last_cell != probe.nearest
                ||| self.current_selection.is_some()
            },
            MsgReduction::MouseClick => false,
            MsgReduction::MouseWheel(_) => true,
            MsgReduction::SelectCurrentTool(_) => true,
            MsgReduction::MouseStartSelect(_, _) => self.current_tool == CurrentTool::Select,
            MsgReduction::MouseEndSelect(_, _) => true,
        }
    }

    /// The selection that a message commits. Only the end of a selection
    /// over a loaded point set commits one: a rectangle of no extent is a
    /// click on the hovered point, any other is scanned.
    pub open spec fn commit(&self, msg: MsgReduction, probe: Probe, loaded: bool) -> Commit {
        match (msg, self.stretched(probe)) {
            (MsgReduction::MouseEndSelect(_, _), Some(rect)) => if !loaded {
                Commit::Nothing
            } else if !rect.is_point() {
                Commit::Scan(rect)
            } else if self.current_tool == CurrentTool::Select && self.last_cell.is_some() {
                Commit::Single(self.last_cell.unwrap())
            } else {
                Commit::Nothing
            },
            _ => Commit::Nothing,
        }
    }

    /// The state of a view that has seen no message: the select tool, no
    /// hovered point, no gesture.
    pub fn create() -> (r: ReductionView)
        ensures
            r == (ReductionView {
                last_pos: (0u32, 0u32),
                last_cell: None,
                current_tool: CurrentTool::Select,
                current_selection: None,
                panning: false,
            }),
            r.spec_gesture() == Gesture::Idle,
    {
        ReductionView {
            last_pos: (0, 0),
            last_cell: None,
            current_tool: CurrentTool::Select,
            current_selection: None,
            panning: false,
        }
    }

    /// The gesture in progress.
    pub fn gesture(&self) -> (g: Gesture)
        ensures
            g == self.spec_gesture(),
    {
        if self.current_selection.is_some() {
            Gesture::SelectingRect
        } else if self.panning {
            Gesture::Panning
        } else {
            Gesture::Idle
        }
    }

    /// Handles one message. `probe` is what the camera and the index report
    /// for the position the message carries; `data` is the point set on show.
    pub fn update(&mut self, msg: MsgReduction, probe: Probe, data: &AsyncData<ReductionViewData>) -> (out: Outcome)
        requires
            data matches AsyncData::Loaded(d) ==> d.wf(),
        ensures
            *final(self) == old(self).next_state(msg, probe),
            out.redraw == old(self).wants_redraw(msg, probe),
            out.hovered == old(self).hover_report(msg, probe),
            out.camera == old(self).camera_action(msg, data.loaded().is_some()),
            match old(self).commit(msg, probe, data.loaded().is_some()) {
                Commit::Nothing => out.clicked is None,
                Commit::Single(cell) => out.clicked is Some && out.clicked.unwrap()@ == seq![cell],
                Commit::Scan(rect) => out.clicked is Some && is_selection(data.loaded().unwrap(), rect, out.clicked.unwrap()@),
            },
    {
        let mut out = Outcome { redraw: false, hovered: None, clicked: None, camera: CameraAction::Keep };
        match msg {
            MsgReduction::MouseMove(x, y, press_left) => {
                let last_pos = self.last_pos;
                self.last_pos = (x, y);
                let point_changed = !same_cell(self.last_cell, probe.nearest);
                self.last_cell = probe.nearest;
                if point_changed {
                    out.hovered = Some(probe.nearest);
                    out.redraw = true;
                }
                if let Some(sel) = self.current_selection {
                    self.current_selection = Some(Rectangle2D { x1: sel.x1, x2: probe.wx, y1: sel.y1, y2: probe.wy });
                    out.redraw = true;
                }
                if self.current_tool == CurrentTool::Zoom && press_left {
                    out.camera = CameraAction::Pan { from: last_pos, to: (x, y) };
                    out.redraw = true;
                    self.panning = true;
                } else {
                    self.panning = false;
                }
            },
            MsgReduction::MouseWheel(delta) => {
                out.camera = CameraAction::ZoomAround { at: self.last_pos, delta };
                out.redraw = true;
            },
            MsgReduction::MouseClick => {},
            MsgReduction::SelectCurrentTool(t) => {
                if t == CurrentTool::ZoomAll {
                    if data.is_loaded() {
                        out.camera = CameraAction::Fit;
                    }
                } else {
                    self.current_tool = t;
                }
                out.redraw = true;
            },
            MsgReduction::MouseStartSelect(_, _) => {
                if self.current_tool == CurrentTool::Select {
                    self.current_selection = Some(Rectangle2D::anchored(probe.wx, probe.wy));
                    out.redraw = true;
                }
            },
            MsgReduction::MouseEndSelect(_, _) => {
                if let Some(sel) = self.current_selection {
                    let rect = Rectangle2D { x1: sel.x1, x2: probe.wx, y1: sel.y1, y2: probe.wy };
                    if let AsyncData::Loaded(points) = data {
                        if rect.is_click() {
                            if self.current_tool == CurrentTool::Select {
                                if let Some(cell) = self.last_cell {
                                    let mut one: Vec<usize> = Vec::new();
                                    one.push(cell);
                                    out.clicked = Some(one);
                                }
                            }
                        } else {
                            out.clicked = Some(select_in_rectangle(points, &rect));
                        }
                    }
                    self.current_selection = None;
                }
                self.panning = false;
                out.redraw = true;
            },
        }
        out
    }
}

/// Tells whether two hover targets are the same point, or both none.
pub fn same_cell(a: Option<usize>, b: Option<usize>) -> (r: bool)
    ensures
        r == (a == b),
{
    match (a, b) {
        (Some(p), Some(q)) => p == q,
        (None, None) => true,
        _ => false,
    }
}

/// A rectangle of no extent is a click: whatever the state, the end of
/// such a selection commits the hovered point or nothing, never a scan.
pub proof fn click_never_scans(view: ReductionView, msg: MsgReduction, probe: Probe, loaded: bool)
    requires
        view.stretched(probe) matches Some(rect) && rect.is_point(),
    ensures
        !(view.commit(msg, probe, loaded) is Scan),
{
}

/// Without a loaded point set no message commits a selection, and the
/// gesture still ends.
pub proof fn nothing_committed_without_data(view: ReductionView, msg: MsgReduction, probe: Probe)
    ensures
        view.commit(msg, probe, false) is Nothing,
        msg is MouseEndSelect ==> view.next_state(msg, probe).spec_gesture() == Gesture::Idle,
{
}

/// Hover is reported on change only: after any pointer move, a second move
/// that finds the same nearest point reports nothing.
pub proof fn hover_reported_once(view: ReductionView, first: MsgReduction, second: MsgReduction, found: Probe, again: Probe)
    requires
        first is MouseMove,
        second is MouseMove,
        found.nearest == again.nearest,
    ensures
        view.next_state(first, found).hover_report(second, again) is None,
        view.hover_report(first, found) is Some <==> view.last_cell != found.nearest,
{
}

/// The wheel zooms around the pointer and changes nothing of the state.
pub proof fn wheel_keeps_state(view: ReductionView, delta: u32, probe: Probe, loaded: bool)
    ensures
        view.next_state(MsgReduction::MouseWheel(delta), probe) == view,
        view.camera_action(MsgReduction::MouseWheel(delta), loaded) == (CameraAction::ZoomAround {
            at: view.last_pos,
            delta,
        }),
{
}

/// Zoom-all is a one-shot action: it never becomes the current tool, and
/// picking it leaves the state as it was.
pub proof fn zoom_all_is_one_shot(view: ReductionView, msg: MsgReduction, probe: Probe)
    requires
        view.current_tool != CurrentTool::ZoomAll,
    ensures
        view.next_state(msg, probe).current_tool != CurrentTool::ZoomAll,
        view.next_state(MsgReduction::SelectCurrentTool(CurrentTool::ZoomAll), probe) == view,
{
}

/// A selection starts only under the select tool, anchored at the pointer.
pub proof fn selection_starts_under_select_tool(view: ReductionView, x: u32, y: u32, probe: Probe)
    ensures
        view.current_selection is None ==> (view.next_state(MsgReduction::MouseStartSelect(x, y), probe).spec_gesture()
            == Gesture::SelectingRect <==> view.current_tool == CurrentTool::Select),
        view.current_tool == CurrentTool::Select ==> view.next_state(
            MsgReduction::MouseStartSelect(x, y),
            probe,
        ).current_selection == Some(Rectangle2D { x1: probe.wx, x2: probe.wx, y1: probe.wy, y2: probe.wy }),
{
}

} // verus!
