//! The state behind the control panel and what each of its buttons does to it.
//!
//! The panel is redrawn every frame from a [`UIState`]. Drawing is left to the
//! caller; this module decides which buttons the panel offers and how a click
//! changes the state.

use vstd::prelude::*;
use crate::text::same_text;

verus! {

/// The fewest sides the panel lets a polygon have.
pub const MIN_SIDES: u16 = 3;

/// The most sides the panel lets a polygon have.
pub const MAX_SIDES: u16 = 12;

/// The kind of mesh that the panel is set to.
#[derive(Clone, Copy, Debug, PartialEq, Eq, Structural)]
pub enum RenderingStyle {
    Polygon,
    Cube,
}

impl RenderingStyle {
    /// The style that is not `self`.
    pub open spec fn other(self) -> RenderingStyle {
        match self {
            RenderingStyle::Polygon => RenderingStyle::Cube,
            RenderingStyle::Cube => RenderingStyle::Polygon,
        }
    }
}

/// A button of the control panel.
#[derive(Clone, Copy, Debug, PartialEq, Eq, Structural)]
pub enum Button {
    /// "Switch Shader".
    SwitchShader,
    /// "-" in the row of the polygon's sides.
    FewerSides,
    /// "+" in the row of the polygon's sides.
    MoreSides,
    /// "Switch to Cube".
    SwitchStyle,
}

/// The state of the control panel.
pub struct UIState {
    pub sides: u16,
    pub rendering_style: RenderingStyle,
    pub active_shader: &'static str,
}

/// A [`UIState`] as a mathematical value.
pub struct PanelView {
    pub sides: int,
    pub rendering_style: RenderingStyle,
    pub active_shader: Seq<char>,
}

impl View for UIState {
    type V = PanelView;

    open spec fn view(&self) -> PanelView {
        PanelView {
            sides: self.sides as int,
            rendering_style: self.rendering_style,
            active_shader: self.active_shader@,
        }
    }
}

impl PanelView {
    /// The panel as it is when the viewer starts.
    pub open spec fn initial() -> PanelView {
        PanelView {
            sides: 5,
            rendering_style: RenderingStyle::Polygon,
            active_shader: "main"@,
        }
    }

    /// Whether the panel shows `button`. The row of the polygon's sides is
    /// shown only while the panel is set to a polygon.
    pub open spec fn offers(self, button: Button) -> bool {
        match button {
            Button::FewerSides | Button::MoreSides => self.rendering_style
                == RenderingStyle::Polygon,
            Button::SwitchShader | Button::SwitchStyle => true,
        }
    }

    /// The panel after a click on `button`.
    pub open spec fn pressed(self, button: Button) -> PanelView {
        match button {
            Button::SwitchShader => PanelView {
                active_shader: if self.active_shader == "main"@ {
                    "challenge"@
                } else {
                    "main"@
                },
                ..self
            },
            Button::FewerSides => PanelView {
                sides: if self.sides - 1 > MIN_SIDES {
                    self.sides - 1
                } else {
                    MIN_SIDES as int
                },
                ..self
            },
            Button::MoreSides => PanelView {
                sides: if self.sides + 1 < MAX_SIDES {
                    self.sides + 1
                } else {
                    MAX_SIDES as int
                },
                ..self
            },
            Button::SwitchStyle => PanelView {
                rendering_style: self.rendering_style.other(),
                ..self
            },
        }
    }

    /// The panel after the clicks `buttons`, in their order.
    pub open spec fn pressed_all(self, buttons: Seq<Button>) -> PanelView
        decreases buttons.len(),
    {
        if buttons.len() == 0 {
            self
        } else {
            self.pressed_all(buttons.drop_last()).pressed(buttons.last())
        }
    }

    /// Whether the number of sides is one that the panel can reach.
    pub open spec fn sides_in_range(self) -> bool {
        MIN_SIDES <= self.sides <= MAX_SIDES
    }

    /// Whether the active shader is one of the two that the panel switches
    /// between.
    pub open spec fn shader_known(self) -> bool {
        self.active_shader == "main"@ || self.active_shader == "challenge"@
    }
}

impl UIState {
    /// The panel as it is when the viewer starts: a polygon of five sides,
    /// drawn with the main shader.
    pub fn new() -> (state: Self)
        ensures
            state@ == PanelView::initial(),
    {
        Self { sides: 5, rendering_style: RenderingStyle::Polygon, active_shader: "main" }
    }

    /// Whether the panel shows `button`.
    pub fn offers(&self, button: Button) -> (shown: bool)
        ensures
            shown == self@.offers(button),
    {
        match button {
            Button::FewerSides | Button::MoreSides => match self.rendering_style {
                RenderingStyle::Polygon => true,
                RenderingStyle::Cube => false,
            },
            Button::SwitchShader | Button::SwitchStyle => true,
        }
    }

    /// Applies a click on `button`.
    ///
    /// The number of sides is stepped in `u16` before it is held to the
    /// panel's limits, so the step itself must fit.
    pub fn press(&mut self, button: Button)
        requires
            button == Button::FewerSides ==> old(self).sides >= 1,
            button == Button::MoreSides ==> old(self).sides < u16::MAX,
        ensures
            final(self)@ == old(self)@.pressed(button),
    {
        match button {
            Button::SwitchShader => {
                if same_text(self.active_shader, "main") {
                    self.active_shader = "challenge";
                } else {
                    self.active_shader = "main";
                }
            },
            Button::FewerSides => {
                let fewer: u16 = self.sides - 1;
                self.sides = if fewer > MIN_SIDES {
                    fewer
                } else {
                    MIN_SIDES
                };
            },
            Button::MoreSides => {
                let more: u16 = self.sides + 1;
                self.sides = if more < MAX_SIDES {
                    more
                } else {
                    MAX_SIDES
                };
            },
            Button::SwitchStyle => {
                self.rendering_style = match self.rendering_style {
                    RenderingStyle::Polygon => RenderingStyle::Cube,
                    RenderingStyle::Cube => RenderingStyle::Polygon,
                };
            },
        }
    }
}

/// A click never takes the number of sides out of the panel's range.
pub proof fn lemma_press_keeps_sides_in_range(panel: PanelView, button: Button)
    requires
        panel.sides_in_range(),
    ensures
        panel.pressed(button).sides_in_range(),
{
}

/// Whatever is clicked, in whatever order, the number of sides of a panel
/// that started as [`PanelView::initial`] stays between [`MIN_SIDES`] and
/// [`MAX_SIDES`], and its shader is "main" or "challenge".
pub proof fn lemma_reachable_panels(buttons: Seq<Button>)
    ensures
        PanelView::initial().pressed_all(buttons).sides_in_range(),
        PanelView::initial().pressed_all(buttons).shader_known(),
    decreases buttons.len(),
{
    if buttons.len() > 0 {
        lemma_reachable_panels(buttons.drop_last());
    }
}

/// Two clicks on "Switch to Cube" leave the panel as it was.
pub proof fn lemma_switch_style_twice(panel: PanelView)
    ensures
        panel.pressed(Button::SwitchStyle).pressed(Button::SwitchStyle) == panel,
{
}

/// Two clicks on "Switch Shader" leave a panel with a known shader as it was.
pub proof fn lemma_switch_shader_twice(panel: PanelView)
    requires
        panel.shader_known(),
    ensures
        panel.pressed(Button::SwitchShader).pressed(Button::SwitchShader) == panel,
{
    reveal_strlit("main");
    reveal_strlit("challenge");
}

/// "+" undoes "-" and "-" undoes "+" as long as neither runs into a limit.
pub proof fn lemma_sides_steps_cancel(panel: PanelView)
    ensures
        MIN_SIDES < panel.sides <= MAX_SIDES ==> panel.pressed(Button::FewerSides).pressed(
            Button::MoreSides,
        ) == panel,
        MIN_SIDES <= panel.sides < MAX_SIDES ==> panel.pressed(Button::MoreSides).pressed(
            Button::FewerSides,
        ) == panel,
{
}

} // verus!
