//! Player actions and keyboard navigation, independent of any window system.

use vstd::prelude::*;

verus! {

#[derive(Clone, Copy, Debug, PartialEq, Eq, Hash, Structural)]
pub enum Action {
    Field1,
    Field2,
    Field3,
    Decrease,
    Increase,
    Launch,
    Pause,
    SpeedDown,
    SpeedUp,
    CameraReset,
    Settings,
    Restart,
    Help,
    Cancel,
    Scenario,
}

#[derive(Clone, Copy, Debug, PartialEq, Eq, Hash, Structural)]
pub enum NavigationAction {
    TabForward,
    TabBackward,
    Up,
    Down,
    Left,
    Right,
    PageUp,
    PageDown,
    Activate,
    Escape,
    Backspace,
    Delete,
    Home,
    End,
}

/// The action a character key triggers, matched without regard to case.
pub open spec fn character_action(key: char) -> Option<Action> {
    if key == '1' {
        Some(Action::Field1)
    } else if key == '2' {
        Some(Action::Field2)
    } else if key == '3' {
        Some(Action::Field3)
    } else if key == 'q' || key == 'Q' {
        Some(Action::Decrease)
    } else if key == 'e' || key == 'E' {
        Some(Action::Increase)
    } else if key == 'p' || key == 'P' {
        Some(Action::Pause)
    } else if key == '[' {
        Some(Action::SpeedDown)
    } else if key == ']' {
        Some(Action::SpeedUp)
    } else if key == 'c' || key == 'C' {
        Some(Action::CameraReset)
    } else if key == 's' || key == 'S' {
        Some(Action::Settings)
    } else if key == 'r' || key == 'R' {
        Some(Action::Restart)
    } else if key == 'h' || key == 'H' {
        Some(Action::Help)
    } else {
        None
    }
}

/// The action a single-character key triggers.
pub fn action_for_character(key: char) -> (action: Option<Action>)
    ensures
        action == character_action(key),
{
    if key == '1' {
        Some(Action::Field1)
    } else if key == '2' {
        Some(Action::Field2)
    } else if key == '3' {
        Some(Action::Field3)
    } else if key == 'q' || key == 'Q' {
        Some(Action::Decrease)
    } else if key == 'e' || key == 'E' {
        Some(Action::Increase)
    } else if key == 'p' || key == 'P' {
        Some(Action::Pause)
    } else if key == '[' {
        Some(Action::SpeedDown)
    } else if key == ']' {
        Some(Action::SpeedUp)
    } else if key == 'c' || key == 'C' {
        Some(Action::CameraReset)
    } else if key == 's' || key == 'S' {
        Some(Action::Settings)
    } else if key == 'r' || key == 'R' {
        Some(Action::Restart)
    } else if key == 'h' || key == 'H' {
        Some(Action::Help)
    } else {
        None
    }
}

/// The position of `action` in the action tables.
pub open spec fn action_slot(action: Action) -> int {
    match action {
        Action::Field1 => 0,
        Action::Field2 => 1,
        Action::Field3 => 2,
        Action::Decrease => 3,
        Action::Increase => 4,
        Action::Launch => 5,
        Action::Pause => 6,
        Action::SpeedDown => 7,
        Action::SpeedUp => 8,
        Action::CameraReset => 9,
        Action::Settings => 10,
        Action::Restart => 11,
        Action::Help => 12,
        Action::Cancel => 13,
        Action::Scenario => 14,
    }
}

/// The position of `action` in the navigation table.
pub open spec fn navigation_slot(action: NavigationAction) -> int {
    match action {
        NavigationAction::TabForward => 0,
        NavigationAction::TabBackward => 1,
        NavigationAction::Up => 2,
        NavigationAction::Down => 3,
        NavigationAction::Left => 4,
        NavigationAction::Right => 5,
        NavigationAction::PageUp => 6,
        NavigationAction::PageDown => 7,
        NavigationAction::Activate => 8,
        NavigationAction::Escape => 9,
        NavigationAction::Backspace => 10,
        NavigationAction::Delete => 11,
        NavigationAction::Home => 12,
        NavigationAction::End => 13,
    }
}

fn action_index(action: Action) -> (index: usize)
    ensures
        index == action_slot(action),
        index < 15,
{
    match action {
        Action::Field1 => 0,
        Action::Field2 => 1,
        Action::Field3 => 2,
        Action::Decrease => 3,
        Action::Increase => 4,
        Action::Launch => 5,
        Action::Pause => 6,
        Action::SpeedDown => 7,
        Action::SpeedUp => 8,
        Action::CameraReset => 9,
        Action::Settings => 10,
        Action::Restart => 11,
        Action::Help => 12,
        Action::Cancel => 13,
        Action::Scenario => 14,
    }
}

fn navigation_index(action: NavigationAction) -> (index: usize)
    ensures
        index == navigation_slot(action),
        index < 14,
{
    match action {
        NavigationAction::TabForward => 0,
        NavigationAction::TabBackward => 1,
        NavigationAction::Up => 2,
        NavigationAction::Down => 3,
        NavigationAction::Left => 4,
        NavigationAction::Right => 5,
        NavigationAction::PageUp => 6,
        NavigationAction::PageDown => 7,
        NavigationAction::Activate => 8,
        NavigationAction::Escape => 9,
        NavigationAction::Backspace => 10,
        NavigationAction::Delete => 11,
        NavigationAction::Home => 12,
        NavigationAction::End => 13,
    }
}

/// The keyboard, click and text state of one frame, with press edges that
/// are consumed once. Pointer position and wheel motion are tracked by the
/// window layer.
pub struct InputState {
    pub left_clicked: bool,
    pub right_clicked: bool,
    pub primary_down: bool,
    held: [bool; 15],
    pressed: [bool; 15],
    navigation: [bool; 14],
    committed_text: String,
    ime_preedit: String,
}

/// The contents of an [`InputState`].
pub struct InputView {
    pub left_clicked: bool,
    pub right_clicked: bool,
    pub primary_down: bool,
    pub held: Set<Action>,
    pub pressed: Set<Action>,
    pub navigation: Set<NavigationAction>,
    pub committed_text: Seq<char>,
    pub ime_preedit: Seq<char>,
}

impl View for InputState {
    type V = InputView;

    closed spec fn view(&self) -> InputView {
        InputView {
            left_clicked: self.left_clicked,
            right_clicked: self.right_clicked,
            primary_down: self.primary_down,
            held: Set::new(|action: Action| self.held@[action_slot(action)]),
            pressed: Set::new(|action: Action| self.pressed@[action_slot(action)]),
            navigation: Set::new(|action: NavigationAction| self.navigation@[navigation_slot(action)]),
            committed_text: self.committed_text@,
            ime_preedit: self.ime_preedit@,
        }
    }
}

/// The state a frame boundary leaves: no edges, no clicks and no committed
/// text; held keys, the primary button and the composition are kept.
pub open spec fn cleared_transient(input: InputView) -> InputView {
    InputView {
        pressed: Set::empty(),
        navigation: Set::empty(),
        left_clicked: false,
        right_clicked: false,
        committed_text: Seq::empty(),
        ..input
    }
}

impl Default for InputState {
    fn default() -> (input: Self)
        ensures
            input@ == (InputView {
                left_clicked: false,
                right_clicked: false,
                primary_down: false,
                held: Set::empty(),
                pressed: Set::empty(),
                navigation: Set::empty(),
                committed_text: Seq::empty(),
                ime_preedit: Seq::empty(),
            }),
    {
        let input = InputState {
            left_clicked: false,
            right_clicked: false,
            primary_down: false,
            held: [false; 15],
            pressed: [false; 15],
            navigation: [false; 14],
            committed_text: String::new(),
            ime_preedit: String::new(),
        };
        assert(input@.held =~= Set::<Action>::empty());
        assert(input@.pressed =~= Set::<Action>::empty());
        assert(input@.navigation =~= Set::<NavigationAction>::empty());
        input
    }
}

impl InputState {
    /// A key going down while it was up records a press edge; a repeat while
    /// held records nothing; a key going up only stops being held.
    pub fn set_action(&mut self, action: Action, down: bool)
        ensures
            down && !old(self)@.held.contains(action) ==> {
                &&& final(self)@.held == old(self)@.held.insert(action)
                &&& final(self)@.pressed == old(self)@.pressed.insert(action)
            },
            down && old(self)@.held.contains(action) ==> {
                &&& final(self)@.held == old(self)@.held
                &&& final(self)@.pressed == old(self)@.pressed
            },
            !down ==> {
                &&& final(self)@.held == old(self)@.held.remove(action)
                &&& final(self)@.pressed == old(self)@.pressed
            },
            final(self)@.navigation == old(self)@.navigation,
            final(self)@.committed_text == old(self)@.committed_text,
            final(self)@.ime_preedit == old(self)@.ime_preedit,
            final(self)@.left_clicked == old(self)@.left_clicked,
            final(self)@.right_clicked == old(self)@.right_clicked,
            final(self)@.primary_down == old(self)@.primary_down,
    {
        let index = action_index(action);
        if down {
            if !self.held[index] {
                self.held.set(index, true);
                self.pressed.set(index, true);
            }
        } else {
            self.held.set(index, false);
        }
        proof {
            assert forall|other: Action| other != action implies action_slot(other) != action_slot(
                action,
            ) by {}
            if down {
                if !old(self).held@[index as int] {
                    assert(self@.held =~= old(self)@.held.insert(action));
                    assert(self@.pressed =~= old(self)@.pressed.insert(action));
                } else {
                    assert(self@.held =~= old(self)@.held);
                    assert(self@.pressed =~= old(self)@.pressed);
                }
            } else {
                assert(self@.held =~= old(self)@.held.remove(action));
                assert(self@.pressed =~= old(self)@.pressed);
            }
            assert(self@.navigation =~= old(self)@.navigation);
        }
    }

    /// Consumes the press edge of `action`, reporting whether there was one.
    pub fn take_pressed(&mut self, action: Action) -> (pressed: bool)
        ensures
            pressed == old(self)@.pressed.contains(action),
            final(self)@ == (InputView { pressed: old(self)@.pressed.remove(action), ..old(self)@ }),
    {
        let index = action_index(action);
        let pressed = self.pressed[index];
        self.pressed.set(index, false);
        proof {
            assert forall|other: Action| other != action implies action_slot(other) != action_slot(
                action,
            ) by {}
            assert(self@.pressed =~= old(self)@.pressed.remove(action));
            assert(self@.held =~= old(self)@.held);
            assert(self@.navigation =~= old(self)@.navigation);
        }
        pressed
    }

    pub fn press_navigation(&mut self, action: NavigationAction)
        ensures
            final(self)@ == (InputView {
                navigation: old(self)@.navigation.insert(action),
                ..old(self)@
            }),
    {
        let index = navigation_index(action);
        self.navigation.set(index, true);
        proof {
            assert forall|other: NavigationAction| other != action implies navigation_slot(other)
                != navigation_slot(action) by {}
            assert(self@.navigation =~= old(self)@.navigation.insert(action));
            assert(self@.held =~= old(self)@.held);
            assert(self@.pressed =~= old(self)@.pressed);
        }
    }

    /// Consumes a navigation press, reporting whether there was one.
    pub fn take_navigation(&mut self, action: NavigationAction) -> (pressed: bool)
        ensures
            pressed == old(self)@.navigation.contains(action),
            final(self)@ == (InputView {
                navigation: old(self)@.navigation.remove(action),
                ..old(self)@
            }),
    {
        let index = navigation_index(action);
        let pressed = self.navigation[index];
        self.navigation.set(index, false);
        proof {
            assert forall|other: NavigationAction| other != action implies navigation_slot(other)
                != navigation_slot(action) by {}
            assert(self@.navigation =~= old(self)@.navigation.remove(action));
            assert(self@.held =~= old(self)@.held);
            assert(self@.pressed =~= old(self)@.pressed);
        }
        pressed
    }

    pub fn push_text(&mut self, text: &str)
        ensures
            final(self)@ == (InputView {
                committed_text: old(self)@.committed_text + text@,
                ..old(self)@
            }),
    {
        self.committed_text.append(text);
        proof {
            assert(self@.held =~= old(self)@.held);
            assert(self@.pressed =~= old(self)@.pressed);
            assert(self@.navigation =~= old(self)@.navigation);
        }
    }

    /// Commits composed text and ends the composition.
    pub fn commit_ime(&mut self, text: &str)
        ensures
            final(self)@ == (InputView {
                committed_text: old(self)@.committed_text + text@,
                ime_preedit: Seq::empty(),
                ..old(self)@
            }),
    {
        self.push_text(text);
        self.ime_preedit = String::new();
        proof {
            assert(self@.held =~= old(self)@.held);
            assert(self@.pressed =~= old(self)@.pressed);
            assert(self@.navigation =~= old(self)@.navigation);
        }
    }

    /// Hands out the text committed this frame and forgets it.
    pub fn take_text(&mut self) -> (text: String)
        ensures
            text@ == old(self)@.committed_text,
            final(self)@ == (InputView { committed_text: Seq::empty(), ..old(self)@ }),
    {
        let mut text = String::new();
        core::mem::swap(&mut text, &mut self.committed_text);
        proof {
            assert(self@.held =~= old(self)@.held);
            assert(self@.pressed =~= old(self)@.pressed);
            assert(self@.navigation =~= old(self)@.navigation);
        }
        text
    }

    pub fn set_ime_preedit(&mut self, text: &str)
        ensures
            final(self)@ == (InputView { ime_preedit: text@, ..old(self)@ }),
    {
        self.ime_preedit = String::from_str(text);
        proof {
            assert(self@.held =~= old(self)@.held);
            assert(self@.pressed =~= old(self)@.pressed);
            assert(self@.navigation =~= old(self)@.navigation);
        }
    }

    pub fn ime_preedit(&self) -> (text: &str)
        ensures
            text@ == self@.ime_preedit,
    {
        self.ime_preedit.as_str()
    }

    /// Drops this frame's edges, clicks and committed text.
    pub fn clear_transient(&mut self)
        ensures
            final(self)@ == cleared_transient(old(self)@),
    {
        self.pressed = [false; 15];
        self.navigation = [false; 14];
        self.left_clicked = false;
        self.right_clicked = false;
        self.committed_text = String::new();
        proof {
            assert(self@.pressed =~= Set::<Action>::empty());
            assert(self@.navigation =~= Set::<NavigationAction>::empty());
            assert(self@.held =~= old(self)@.held);
        }
    }

    /// Drops every input, held keys and composition included.
    pub fn clear_all(&mut self)
        ensures
            final(self)@ == (InputView {
                held: Set::empty(),
                primary_down: false,
                ime_preedit: Seq::empty(),
                ..cleared_transient(old(self)@)
            }),
    {
        self.clear_transient();
        self.held = [false; 15];
        self.primary_down = false;
        self.ime_preedit = String::new();
        proof {
            assert(self@.held =~= Set::<Action>::empty());
            assert(self@.pressed =~= Set::<Action>::empty());
            assert(self@.navigation =~= Set::<NavigationAction>::empty());
        }
    }

    pub fn finish_frame(&mut self)
        ensures
            final(self)@ == cleared_transient(old(self)@),
    {
        self.clear_transient();
    }
}

/// A press is reported once: consuming it removes the edge, and only a key
/// that was up can record a new one.
pub proof fn lemma_press_reported_once(input: InputView, action: Action)
    ensures
        !input.pressed.remove(action).contains(action),
        input.held.contains(action) ==> input.held.insert(action) == input.held,
{
    assert(input.held.contains(action) ==> input.held.insert(action) =~= input.held);
}

/// A key as the window layer reports it: one character, or a named key.
#[derive(Clone, Copy, Debug, PartialEq, Eq, Structural)]
pub enum KeyPress {
    Character(char),
    Space,
    Escape,
    F1,
    F4,
    Tab,
    ArrowUp,
    ArrowDown,
    ArrowLeft,
    ArrowRight,
    PageUp,
    PageDown,
    Enter,
    Backspace,
    Delete,
    Home,
    End,
    Other,
}

/// The game action a key triggers.
pub open spec fn key_action(key: KeyPress) -> Option<Action> {
    match key {
        KeyPress::Character(c) => character_action(c),
        KeyPress::Space => Some(Action::Launch),
        KeyPress::Escape => Some(Action::Cancel),
        KeyPress::F4 => Some(Action::Scenario),
        _ => None,
    }
}

pub fn action_for_key(key: KeyPress) -> (action: Option<Action>)
    ensures
        action == key_action(key),
{
    match key {
        KeyPress::Character(c) => action_for_character(c),
        KeyPress::Space => Some(Action::Launch),
        KeyPress::Escape => Some(Action::Cancel),
        KeyPress::F4 => Some(Action::Scenario),
        _ => None,
    }
}

/// The navigation a key triggers; Shift turns Tab backward.
pub open spec fn key_navigation(key: KeyPress, shift: bool) -> Option<NavigationAction> {
    match key {
        KeyPress::Tab => if shift {
            Some(NavigationAction::TabBackward)
        } else {
            Some(NavigationAction::TabForward)
        },
        KeyPress::ArrowUp => Some(NavigationAction::Up),
        KeyPress::ArrowDown => Some(NavigationAction::Down),
        KeyPress::ArrowLeft => Some(NavigationAction::Left),
        KeyPress::ArrowRight => Some(NavigationAction::Right),
        KeyPress::PageUp => Some(NavigationAction::PageUp),
        KeyPress::PageDown => Some(NavigationAction::PageDown),
        KeyPress::Enter => Some(NavigationAction::Activate),
        KeyPress::Space => Some(NavigationAction::Activate),
        KeyPress::Escape => Some(NavigationAction::Escape),
        KeyPress::Backspace => Some(NavigationAction::Backspace),
        KeyPress::Delete => Some(NavigationAction::Delete),
        KeyPress::Home => Some(NavigationAction::Home),
        KeyPress::End => Some(NavigationAction::End),
        _ => None,
    }
}

pub fn navigation_for_key(key: KeyPress, shift: bool) -> (action: Option<NavigationAction>)
    ensures
        action == key_navigation(key, shift),
{
    match key {
        KeyPress::Tab => if shift {
            Some(NavigationAction::TabBackward)
        } else {
            Some(NavigationAction::TabForward)
        },
        KeyPress::ArrowUp => Some(NavigationAction::Up),
        KeyPress::ArrowDown => Some(NavigationAction::Down),
        KeyPress::ArrowLeft => Some(NavigationAction::Left),
        KeyPress::ArrowRight => Some(NavigationAction::Right),
        KeyPress::PageUp => Some(NavigationAction::PageUp),
        KeyPress::PageDown => Some(NavigationAction::PageDown),
        KeyPress::Enter | KeyPress::Space => Some(NavigationAction::Activate),
        KeyPress::Escape => Some(NavigationAction::Escape),
        KeyPress::Backspace => Some(NavigationAction::Backspace),
        KeyPress::Delete => Some(NavigationAction::Delete),
        KeyPress::Home => Some(NavigationAction::Home),
        KeyPress::End => Some(NavigationAction::End),
        _ => None,
    }
}

} // verus!
