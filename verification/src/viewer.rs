//! The decisions of the viewer's event loop.
//!
//! The loop itself belongs to the windowing system: it hands over one event
//! at a time. [`Viewer::handle`] takes the event, updates what the viewer
//! remembers between events, and answers with what is to be done: move the
//! camera, fit the surface to the window, draw a frame, or leave.

use vstd::prelude::*;
use crate::text::same_text;
use crate::ui::{PanelView, UIState};

verus! {

/// The width that is asked for the window when the viewer starts.
pub const INITIAL_WIDTH: u32 = 1360;

/// The height that is asked for the window when the viewer starts.
pub const INITIAL_HEIGHT: u32 = 768;

/// A key as the event loop reads it.
#[derive(Clone, Copy, Debug)]
pub enum LogicalKey<'a> {
    /// A key that stands for text.
    Character(&'a str),
    /// The escape key.
    Escape,
    /// Any other key.
    Other,
}

/// A [`LogicalKey`] as a mathematical value.
pub enum KeyView {
    Character(Seq<char>),
    Escape,
    Other,
}

impl View for LogicalKey<'_> {
    type V = KeyView;

    open spec fn view(&self) -> KeyView {
        match self {
            LogicalKey::Character(text) => KeyView::Character(text@),
            LogicalKey::Escape => KeyView::Escape,
            LogicalKey::Other => KeyView::Other,
        }
    }
}

/// A movement of the camera that a key asks for.
#[derive(Clone, Copy, Debug, PartialEq, Eq, Structural)]
pub enum CameraStep {
    StrafeLeft,
    Forward,
    Backward,
    StrafeRight,
    ZoomIn,
    ZoomOut,
}

/// One of the two render pipelines, which differ in their shader.
#[derive(Clone, Copy, Debug, PartialEq, Eq, Structural)]
pub enum Pipeline {
    Main,
    Challenge,
}

/// An event as the event loop reads it.
#[derive(Clone, Copy, Debug)]
pub enum ViewerEvent<'a> {
    /// The window was asked to close.
    CloseRequested,
    /// A key was pressed or released.
    KeyboardInput(LogicalKey<'a>),
    /// The window has a new size, in pixels.
    Resized { width: u32, height: u32 },
    /// The window wants a new frame.
    RedrawRequested,
    /// All pending events were handled.
    AboutToWait,
    /// Any other event.
    Other,
}

/// A [`ViewerEvent`] as a mathematical value.
pub enum EventView {
    CloseRequested,
    KeyboardInput(KeyView),
    Resized { width: u32, height: u32 },
    RedrawRequested,
    AboutToWait,
    Other,
}

impl View for ViewerEvent<'_> {
    type V = EventView;

    open spec fn view(&self) -> EventView {
        match self {
            ViewerEvent::CloseRequested => EventView::CloseRequested,
            ViewerEvent::KeyboardInput(key) => EventView::KeyboardInput(key@),
            ViewerEvent::Resized { width, height } => EventView::Resized {
                width: *width,
                height: *height,
            },
            ViewerEvent::RedrawRequested => EventView::RedrawRequested,
            ViewerEvent::AboutToWait => EventView::AboutToWait,
            ViewerEvent::Other => EventView::Other,
        }
    }
}

/// What the event loop is to do after an event.
#[derive(Clone, Copy, Debug, PartialEq, Eq)]
pub enum ViewerAction {
    /// Nothing.
    Nothing,
    /// Move the camera by `step`, if there is one, and hand the camera's
    /// matrix to the GPU.
    UpdateCamera { step: Option<CameraStep> },
    /// Fit the surface and the camera's aspect ratio to the new size and hand
    /// the camera's matrix to the GPU.
    Resize { width: u32, height: u32 },
    /// Hand the camera's matrix to the GPU, draw the mesh with `pipeline` and
    /// the control panel above it on a surface of `width` by `height` pixels,
    /// and ask for the next frame.
    Redraw { pipeline: Pipeline, width: u32, height: u32 },
    /// Leave the event loop.
    Exit,
}

/// The movement that the text of a key asks for.
pub open spec fn step_of_text(text: Seq<char>) -> Option<CameraStep> {
    if text == "a"@ {
        Some(CameraStep::StrafeLeft)
    } else if text == "w"@ {
        Some(CameraStep::Forward)
    } else if text == "s"@ {
        Some(CameraStep::Backward)
    } else if text == "d"@ {
        Some(CameraStep::StrafeRight)
    } else if text == "z"@ {
        Some(CameraStep::ZoomIn)
    } else if text == "x"@ {
        Some(CameraStep::ZoomOut)
    } else {
        None
    }
}

/// The pipeline that draws with the shader of the given name: the challenge
/// pipeline for "challenge", the main pipeline for every other name.
pub open spec fn pipeline_of(shader: Seq<char>) -> Pipeline {
    if shader == "main"@ {
        Pipeline::Main
    } else if shader == "challenge"@ {
        Pipeline::Challenge
    } else {
        Pipeline::Main
    }
}

impl KeyView {
    /// The movement of the camera that the key asks for, if any.
    pub open spec fn camera_step(self) -> Option<CameraStep> {
        match self {
            KeyView::Character(text) => step_of_text(text),
            _ => None,
        }
    }
}

/// The movement of the camera that `key` asks for, if any.
pub fn camera_step(key: &LogicalKey<'_>) -> (step: Option<CameraStep>)
    ensures
        step == key@.camera_step(),
{
    match key {
        LogicalKey::Character(text) => {
            if same_text(text, "a") {
                Some(CameraStep::StrafeLeft)
            } else if same_text(text, "w") {
                Some(CameraStep::Forward)
            } else if same_text(text, "s") {
                Some(CameraStep::Backward)
            } else if same_text(text, "d") {
                Some(CameraStep::StrafeRight)
            } else if same_text(text, "z") {
                Some(CameraStep::ZoomIn)
            } else if same_text(text, "x") {
                Some(CameraStep::ZoomOut)
            } else {
                None
            }
        },
        _ => None,
    }
}

/// The pipeline that draws with the shader named `shader`.
pub fn pipeline_for(shader: &str) -> (pipeline: Pipeline)
    ensures
        pipeline == pipeline_of(shader@),
{
    if same_text(shader, "main") {
        Pipeline::Main
    } else if same_text(shader, "challenge") {
        Pipeline::Challenge
    } else {
        Pipeline::Main
    }
}

/// What the viewer remembers between two events.
pub struct Viewer {
    /// Whether the user has asked to leave.
    pub close_requested: bool,
    /// The width of the surface, in pixels.
    pub width: u32,
    /// The height of the surface, in pixels.
    pub height: u32,
    /// The state of the control panel.
    pub ui: UIState,
}

/// A [`Viewer`] as a mathematical value.
pub struct ViewerView {
    pub close_requested: bool,
    pub width: u32,
    pub height: u32,
    pub ui: PanelView,
}

impl View for Viewer {
    type V = ViewerView;

    open spec fn view(&self) -> ViewerView {
        ViewerView {
            close_requested: self.close_requested,
            width: self.width,
            height: self.height,
            ui: self.ui@,
        }
    }
}

impl EventView {
    /// Whether the event is the user's wish to leave: the window's close
    /// button or the escape key.
    pub open spec fn asks_to_close(self) -> bool {
        self == EventView::CloseRequested || self == EventView::KeyboardInput(KeyView::Escape)
    }
}

impl ViewerView {
    /// The viewer as it starts.
    pub open spec fn initial() -> ViewerView {
        ViewerView {
            close_requested: false,
            width: INITIAL_WIDTH,
            height: INITIAL_HEIGHT,
            ui: PanelView::initial(),
        }
    }

    /// The viewer after `event`.
    pub open spec fn after(self, event: EventView) -> ViewerView {
        match event {
            EventView::CloseRequested => ViewerView { close_requested: true, ..self },
            EventView::KeyboardInput(KeyView::Escape) => ViewerView {
                close_requested: true,
                ..self
            },
            EventView::Resized { width, height } => ViewerView { width, height, ..self },
            _ => self,
        }
    }

    /// What `event` asks the event loop to do.
    pub open spec fn action(self, event: EventView) -> ViewerAction {
        match event {
            EventView::KeyboardInput(key) => ViewerAction::UpdateCamera {
                step: key.camera_step(),
            },
            EventView::Resized { width, height } => ViewerAction::Resize { width, height },
            EventView::RedrawRequested => ViewerAction::Redraw {
                pipeline: pipeline_of(self.ui.active_shader),
                width: self.width,
                height: self.height,
            },
            EventView::AboutToWait => if self.close_requested {
                ViewerAction::Exit
            } else {
                ViewerAction::Nothing
            },
            EventView::CloseRequested | EventView::Other => ViewerAction::Nothing,
        }
    }

    /// The viewer after the events `events`, in their order.
    pub open spec fn after_all(self, events: Seq<EventView>) -> ViewerView
        decreases events.len(),
    {
        if events.len() == 0 {
            self
        } else {
            self.after_all(events.drop_last()).after(events.last())
        }
    }
}

impl Viewer {
    /// The viewer as it starts: nobody has asked to leave, the surface has
    /// the size that is asked for the window, and the panel is new.
    pub fn new() -> (viewer: Self)
        ensures
            viewer@ == ViewerView::initial(),
    {
        Self {
            close_requested: false,
            width: INITIAL_WIDTH,
            height: INITIAL_HEIGHT,
            ui: UIState::new(),
        }
    }

    /// Takes `event` and says what the event loop is to do.
    pub fn handle(&mut self, event: &ViewerEvent<'_>) -> (action: ViewerAction)
        ensures
            final(self)@ == old(self)@.after(event@),
            action == old(self)@.action(event@),
    {
        match event {
            ViewerEvent::CloseRequested => {
                self.close_requested = true;
                ViewerAction::Nothing
            },
            ViewerEvent::KeyboardInput(key) => {
                let step = camera_step(key);
                match key {
                    LogicalKey::Escape => {
                        self.close_requested = true;
                    },
                    _ => {},
                }
                ViewerAction::UpdateCamera { step }
            },
            ViewerEvent::Resized { width, height } => {
                self.width = *width;
                self.height = *height;
                ViewerAction::Resize { width: *width, height: *height }
            },
            ViewerEvent::RedrawRequested => ViewerAction::Redraw {
                pipeline: pipeline_for(self.ui.active_shader),
                width: self.width,
                height: self.height,
            },
            ViewerEvent::AboutToWait => {
                if self.close_requested {
                    ViewerAction::Exit
                } else {
                    ViewerAction::Nothing
                }
            },
            ViewerEvent::Other => ViewerAction::Nothing,
        }
    }
}

/// A wish to leave is never forgotten.
pub proof fn lemma_close_is_kept(viewer: ViewerView, event: EventView)
    requires
        viewer.close_requested,
    ensures
        viewer.after(event).close_requested,
{
}

/// The event loop never touches the control panel.
pub proof fn lemma_panel_is_kept(viewer: ViewerView, event: EventView)
    ensures
        viewer.after(event).ui == viewer.ui,
{
}

/// After any events, the viewer wants to leave if and only if it wanted to
/// before or one of the events was the user's wish to leave.
pub proof fn lemma_close_has_a_cause(viewer: ViewerView, events: Seq<EventView>)
    ensures
        viewer.after_all(events).close_requested <==> viewer.close_requested || exists|i: int|
            0 <= i < events.len() && (#[trigger] events[i]).asks_to_close(),
    decreases events.len(),
{
    if events.len() > 0 {
        let earlier = events.drop_last();
        lemma_close_has_a_cause(viewer, earlier);
        if viewer.after_all(events).close_requested {
            if !viewer.after_all(earlier).close_requested {
                assert(events[events.len() - 1].asks_to_close());
            } else if !viewer.close_requested {
                let i = choose|i: int|
                    0 <= i < earlier.len() && (#[trigger] earlier[i]).asks_to_close();
                assert(events[i].asks_to_close());
            }
        } else {
            assert forall|i: int| 0 <= i < events.len() implies !(#[trigger] events[i])
                .asks_to_close() by {
                if i < earlier.len() {
                    assert(earlier[i] == events[i]);
                }
            }
        }
    }
}

/// Whether the event at place `i` is a resize and no resize follows it.
pub open spec fn is_last_resize(events: Seq<EventView>, i: int) -> bool {
    &&& 0 <= i < events.len()
    &&& events[i] is Resized
    &&& forall|j: int| i < j < events.len() ==> !((#[trigger] events[j]) is Resized)
}

/// After any events, the surface has the size of the last resize among them.
pub proof fn lemma_size_is_the_last_resize(viewer: ViewerView, events: Seq<EventView>, i: int)
    requires
        is_last_resize(events, i),
    ensures
        viewer.after_all(events).width == events[i]->width,
        viewer.after_all(events).height == events[i]->height,
    decreases events.len(),
{
    let earlier = events.drop_last();
    if i < events.len() - 1 {
        assert(!(events[events.len() - 1] is Resized));
        assert(earlier[i] == events[i]);
        assert forall|j: int| i < j < earlier.len() implies !((#[trigger] earlier[j]) is Resized) by {
            assert(earlier[j] == events[j]);
        }
        lemma_size_is_the_last_resize(viewer, earlier, i);
    }
}

/// Events without a resize among them leave the size of the surface as it
/// was.
pub proof fn lemma_size_is_kept_without_resize(viewer: ViewerView, events: Seq<EventView>)
    requires
        forall|i: int| 0 <= i < events.len() ==> !((#[trigger] events[i]) is Resized),
    ensures
        viewer.after_all(events).width == viewer.width,
        viewer.after_all(events).height == viewer.height,
    decreases events.len(),
{
    if events.len() > 0 {
        let earlier = events.drop_last();
        assert forall|i: int| 0 <= i < earlier.len() implies !((#[trigger] earlier[i]) is Resized) by {
            assert(earlier[i] == events[i]);
        }
        lemma_size_is_kept_without_resize(viewer, earlier);
        assert(!(events[events.len() - 1] is Resized));
    }
}

/// The event loop is told to leave exactly when it has handled all pending
/// events and somebody has asked to leave.
pub proof fn lemma_exit_needs_a_wish(viewer: ViewerView, event: EventView)
    ensures
        viewer.action(event) == ViewerAction::Exit <==> viewer.close_requested && event
            == EventView::AboutToWait,
{
}

} // verus!
