use vstd::prelude::*;
use vstd::string::StringExecFns;
use crate::geometry::Size;

verus! {

/// Width of the window when it is expanded.
pub const EXPANDED_WIDTH: u32 = 320;

/// Height of the window when it is expanded.
pub const EXPANDED_HEIGHT: u32 = 1000;

/// The modifier keys held down with a key.
#[derive(Clone, Copy, Debug, PartialEq, Eq, Structural)]
pub struct ModifierKeys {
    pub control: bool,
    pub shift: bool,
    pub alt: bool,
    pub meta: bool,
}

/// A key combination: a set of modifiers and one key, named by the character
/// on it (upper case for letters).
#[derive(Clone, Copy, Debug, PartialEq, Eq, Structural)]
pub struct Shortcut {
    pub modifiers: ModifierKeys,
    pub key: char,
}

/// Whether a key combination went down or came up.
#[derive(Clone, Copy, Debug, PartialEq, Eq, Structural)]
pub enum KeyPhase {
    Pressed,
    Released,
}

/// A key combination delivered by the global shortcut facility.
#[derive(Clone, Copy, Debug, PartialEq, Eq, Structural)]
pub struct ShortcutEvent {
    pub shortcut: Shortcut,
    pub phase: KeyPhase,
}

/// How the window is to be resized after a toggle.
#[derive(Clone, Copy, Debug, PartialEq, Eq, Structural)]
pub enum Resize {
    /// To zero width, keeping the current height.
    Collapse,
    /// To the fixed expanded size.
    Expand,
}

/// What the window must undergo after a toggle, in this order: click-through
/// switched on or off, the resize, then a new right-edge placement.
#[derive(Clone, Copy, Debug, PartialEq, Eq, Structural)]
pub struct ToggleAction {
    pub click_through: bool,
    pub resize: Resize,
}

/// The two flags that the shortcut flips together.
#[derive(Clone, Copy, Debug, PartialEq, Eq, Structural)]
pub struct ToggleState {
    /// The window takes input; otherwise input passes through it.
    pub interactive: bool,
    /// The window is shrunk to zero width.
    pub collapsed: bool,
}

/// The combination that toggles the window: Control+Shift+Alt+O.
pub open spec fn toggle_shortcut_spec() -> Shortcut {
    Shortcut {
        modifiers: ModifierKeys { control: true, shift: true, alt: true, meta: false },
        key: 'O',
    }
}

/// Whether an event sets off a toggle: the toggle combination, exactly, going down.
pub open spec fn triggers(event: ShortcutEvent) -> bool {
    event.phase == KeyPhase::Pressed && event.shortcut == toggle_shortcut_spec()
}

/// The size the window is given by `resize`, from its current size.
pub open spec fn resized_spec(resize: Resize, current: Size) -> Size {
    match resize {
        Resize::Collapse => Size { width: 0, height: current.height },
        Resize::Expand => Size { width: 320, height: 1000 },
    }
}

/// The word for whether the window takes input.
pub open spec fn input_label_spec(interactive: bool) -> Seq<char> {
    if interactive {
        "interactive"@
    } else {
        "click-through"@
    }
}

/// The word for whether the window is shrunk.
pub open spec fn size_label_spec(collapsed: bool) -> Seq<char> {
    if collapsed {
        "collapsed"@
    } else {
        "expanded"@
    }
}

impl ToggleState {
    /// Both flags always disagree: a collapsed window never takes input.
    pub open spec fn wf(self) -> bool {
        self.collapsed == !self.interactive
    }

    /// The state after one toggle: both flags flipped.
    pub open spec fn toggled(self) -> ToggleState {
        ToggleState { interactive: !self.interactive, collapsed: !self.collapsed }
    }

    /// What the window undergoes on entering this state.
    pub open spec fn action_spec(self) -> ToggleAction {
        ToggleAction {
            click_through: !self.interactive,
            resize: if self.collapsed {
                Resize::Collapse
            } else {
                Resize::Expand
            },
        }
    }

    /// The line reported after a toggle into this state.
    pub open spec fn status_spec(self) -> Seq<char> {
        "Window is now "@ + input_label_spec(self.interactive) + " and "@ + size_label_spec(
            self.collapsed,
        )
    }

    /// The state at startup: expanded, taking input.
    pub fn new() -> (r: ToggleState)
        ensures
            r.interactive,
            !r.collapsed,
            r.wf(),
    {
        ToggleState { interactive: true, collapsed: false }
    }

    /// Whether input passes through the window in this state.
    pub fn click_through(&self) -> (r: bool)
        ensures
            r == !self.interactive,
    {
        !self.interactive
    }

    /// What the window undergoes on entering this state.
    pub fn action(&self) -> (r: ToggleAction)
        ensures
            r == self.action_spec(),
    {
        ToggleAction {
            click_through: !self.interactive,
            resize: if self.collapsed {
                Resize::Collapse
            } else {
                Resize::Expand
            },
        }
    }

    /// Handles one event of the global shortcut facility. The toggle combination
    /// going down flips both flags and yields what the window must undergo; any
    /// other event changes nothing and yields nothing.
    pub fn on_shortcut(&mut self, event: &ShortcutEvent) -> (r: Option<ToggleAction>)
        ensures
            triggers(*event) ==> *final(self) == old(self).toggled() && r == Some(
                old(self).toggled().action_spec(),
            ),
            !triggers(*event) ==> *final(self) == *old(self) && r is None,
            old(self).wf() ==> final(self).wf(),
    {
        if is_toggle_event(event) {
            self.interactive = !self.interactive;
            self.collapsed = !self.collapsed;
            Some(self.action())
        } else {
            None
        }
    }

    /// The word for whether the window takes input.
    pub fn input_label(&self) -> (r: &'static str)
        ensures
            r@ == input_label_spec(self.interactive),
    {
        if self.interactive {
            "interactive"
        } else {
            "click-through"
        }
    }

    /// The word for whether the window is shrunk.
    pub fn size_label(&self) -> (r: &'static str)
        ensures
            r@ == size_label_spec(self.collapsed),
    {
        if self.collapsed {
            "collapsed"
        } else {
            "expanded"
        }
    }

    /// The line reported after a toggle into this state, such as
    /// `Window is now click-through and collapsed`.
    pub fn status_line(&self) -> (r: String)
        ensures
            r@ == self.status_spec(),
    {
        let mut line = String::from_str("Window is now ");
        line.append(self.input_label());
        line.append(" and ");
        line.append(self.size_label());
        line
    }
}

/// The combination that toggles the window: Control+Shift+Alt+O.
pub fn toggle_shortcut() -> (r: Shortcut)
    ensures
        r == toggle_shortcut_spec(),
{
    Shortcut {
        modifiers: ModifierKeys { control: true, shift: true, alt: true, meta: false },
        key: 'O',
    }
}

/// The toggle combination as the global shortcut facility registers it.
pub fn toggle_accelerator() -> (r: &'static str)
    ensures
        r@ == "ctrl+shift+alt+o"@,
{
    "ctrl+shift+alt+o"
}

/// Whether an event sets off a toggle.
pub fn is_toggle_event(event: &ShortcutEvent) -> (r: bool)
    ensures
        r == triggers(*event),
{
    let m = event.shortcut.modifiers;
    match event.phase {
        KeyPhase::Pressed => m.control && m.shift && m.alt && !m.meta && event.shortcut.key == 'O',
        KeyPhase::Released => false,
    }
}

impl Resize {
    /// The size the window is given, from its current size when that could be
    /// read. A collapse needs the current height and does nothing without it;
    /// an expand does not depend on it.
    pub fn target_size(&self, current: Option<Size>) -> (r: Option<Size>)
        ensures
            match current {
                Some(c) => r == Some(resized_spec(*self, c)),
                None => r == (if *self == Resize::Expand {
                    Some(Size { width: 320, height: 1000 })
                } else {
                    None
                }),
            },
    {
        match self {
            Resize::Collapse => match current {
                Some(c) => Some(Size { width: 0, height: c.height }),
                None => None,
            },
            Resize::Expand => Some(Size { width: EXPANDED_WIDTH, height: EXPANDED_HEIGHT }),
        }
    }
}

/// Toggling twice from the startup state restores both flags, and the window
/// ends at the expanded size whatever size it had before.
pub proof fn lemma_toggle_twice_restores(start: ToggleState, size: Size)
    requires
        start.interactive,
        !start.collapsed,
    ensures
        start.toggled().toggled() == start,
        resized_spec(
            start.toggled().toggled().action_spec().resize,
            resized_spec(start.toggled().action_spec().resize, size),
        ) == (Size { width: 320, height: 1000 }),
{
}

/// A toggle from an expanded window collapses it: its width becomes zero and
/// its height stays as it was.
pub proof fn lemma_collapse_keeps_height(state: ToggleState, size: Size)
    requires
        state.wf(),
        !state.collapsed,
    ensures
        state.toggled().collapsed,
        state.toggled().action_spec().resize == Resize::Collapse,
        resized_spec(state.toggled().action_spec().resize, size).width == 0,
        resized_spec(state.toggled().action_spec().resize, size).height == size.height,
{
}

/// A toggle from a collapsed window expands it to exactly 320 by 1000,
/// whatever size it had.
pub proof fn lemma_expand_is_fixed(state: ToggleState, size: Size)
    requires
        state.wf(),
        state.collapsed,
    ensures
        !state.toggled().collapsed,
        state.toggled().action_spec().resize == Resize::Expand,
        resized_spec(state.toggled().action_spec().resize, size) == (Size {
            width: 320,
            height: 1000,
        }),
{
}

/// A collapsed window always passes input through: toggling keeps the two
/// flags in opposition and switches click-through on exactly when collapsing.
pub proof fn lemma_collapsed_is_click_through(state: ToggleState)
    requires
        state.wf(),
    ensures
        state.toggled().wf(),
        state.toggled().action_spec().click_through == state.toggled().collapsed,
{
}

} // verus!
