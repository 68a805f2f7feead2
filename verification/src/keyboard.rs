//! Keyboard routing: which part of the client a key, a navigation step or
//! Escape reaches, decided from what is on screen.

use vstd::prelude::*;

use crate::client::ClientScreen;
use crate::input::{
    Action, KeyPress, NavigationAction, action_for_key, key_action, key_navigation, navigation_for_key,
};
use crate::session::AppMode;

verus! {

/// What the router knows of the client when a key arrives.
#[derive(Clone, Copy, Debug, PartialEq, Eq, Structural)]
pub struct KeyContext {
    pub guide_open: bool,
    pub screen: ClientScreen,
    pub classic_mode: AppMode,
    /// The focused editor widget takes typed text.
    pub editor_accepts_text: bool,
    /// A Classic control holds keyboard focus.
    pub classic_focus_present: bool,
    /// The Workshop simulation is paused.
    pub workshop_paused: bool,
}

/// A key event as the window layer reports it.
#[derive(Clone, Copy, Debug, PartialEq, Eq, Structural)]
pub struct KeyEvent {
    pub key: KeyPress,
    pub pressed: bool,
    pub repeat: bool,
    pub shift: bool,
    /// Control or the platform's command key is held.
    pub command: bool,
    /// The event carries typed text without control characters.
    pub plain_text: bool,
}

/// Where a key goes.
#[derive(Clone, Copy, Debug, PartialEq, Eq, Structural)]
pub enum KeyRoute {
    Ignore,
    OpenGuide,
    CloseGuide,
    Navigate(NavigationAction),
    WorkshopPause,
    WorkshopResume,
    WorkshopSave,
    /// Insert the event's text into the focused editor widget.
    EditorText,
    /// Record the game action as held or released; a fresh press carries
    /// it out.
    Classic { action: Action, pressed: bool },
}

/// Where a navigation step goes.
#[derive(Clone, Copy, Debug, PartialEq, Eq, Structural)]
pub enum NavigationRoute {
    Ignore,
    ShellFocusPrevious,
    ShellFocusNext,
    WorkshopScrollPrevious,
    WorkshopScrollNext,
    ShellActivate,
    ShellEscape,
    Editor(NavigationAction),
    ClassicFocusPrevious,
    ClassicFocusNext,
    ClassicActivate,
    CloseClassicSettings,
}

/// What the shell knows of its open layers when Escape arrives.
#[derive(Clone, Copy, Debug, PartialEq, Eq, Structural)]
pub struct EscapeContext {
    pub guide_open: bool,
    /// A durable exit is waiting and can still be cancelled.
    pub exit_pending: bool,
    pub creator_open: bool,
    pub removal_pending: bool,
    pub screen: ClientScreen,
    pub drawer_open: bool,
    pub credits_visible: bool,
}

/// What Escape closes.
#[derive(Clone, Copy, Debug, PartialEq, Eq, Structural)]
pub enum EscapeRoute {
    Nothing,
    CloseGuide,
    CancelExit,
    CloseCreator,
    CloseRemoval,
    CloseDrawer,
    DismissCredits,
    CloseSettings,
    CloseLibrary,
    DismissRecovery,
    ReturnToMainMenu,
}

/// The key is the F1 guide key.
pub open spec fn is_guide_key(key: KeyPress) -> bool {
    key == KeyPress::F1
}

/// The key is the letter `letter`, in either case.
pub open spec fn is_letter(key: KeyPress, lower: char, upper: char) -> bool {
    key == KeyPress::Character(lower) || key == KeyPress::Character(upper)
}

/// Before the general routing, a pressed key on the Workshop screen is
/// offered to the focused creator field.
pub open spec fn offers_creator_field(context: KeyContext, event: KeyEvent) -> bool {
    &&& !(event.pressed && !event.repeat && is_guide_key(event.key))
    &&& !context.guide_open
    &&& context.screen == ClientScreen::GalaxyWorkshop
    &&& event.pressed
}

/// Where a key goes; `creator_took_it` is whether the focused creator field
/// took a key offered to it.
///
/// F1 toggles the guide from anywhere. While the guide is open only pressed
/// navigation keys reach it. Off the Classic Sector, pressed keys navigate
/// the shell, and on the Workshop screen P toggles pause and Control-S or
/// Command-S saves. In the Classic editor typed text goes to a text widget
/// and other pressed keys navigate; on the Classic settings screen pressed
/// keys navigate. In Classic play, H opens the guide, Tab moves focus,
/// Enter and Space activate a focused control, and game keys are held and
/// released.
pub open spec fn key_route(context: KeyContext, event: KeyEvent, creator_took_it: bool) -> KeyRoute {
    if event.pressed && !event.repeat && is_guide_key(event.key) {
        if context.guide_open {
            KeyRoute::CloseGuide
        } else {
            KeyRoute::OpenGuide
        }
    } else if context.guide_open {
        match (event.pressed, key_navigation(event.key, event.shift)) {
            (true, Some(navigation)) => KeyRoute::Navigate(navigation),
            _ => KeyRoute::Ignore,
        }
    } else if context.screen != ClientScreen::ClassicSector {
        if !event.pressed {
            KeyRoute::Ignore
        } else if context.screen == ClientScreen::GalaxyWorkshop && creator_took_it {
            KeyRoute::Ignore
        } else if key_navigation(event.key, event.shift) is Some {
            KeyRoute::Navigate(key_navigation(event.key, event.shift)->0)
        } else if context.screen == ClientScreen::GalaxyWorkshop && is_letter(event.key, 'p', 'P') {
            if context.workshop_paused {
                KeyRoute::WorkshopResume
            } else {
                KeyRoute::WorkshopPause
            }
        } else if context.screen == ClientScreen::GalaxyWorkshop && is_letter(event.key, 's', 'S')
            && event.command {
            KeyRoute::WorkshopSave
        } else {
            KeyRoute::Ignore
        }
    } else if context.classic_mode == AppMode::EditingScenario {
        if !event.pressed {
            KeyRoute::Ignore
        } else if event.plain_text && context.editor_accepts_text {
            KeyRoute::EditorText
        } else {
            match key_navigation(event.key, event.shift) {
                Some(navigation) => KeyRoute::Navigate(navigation),
                None => KeyRoute::Ignore,
            }
        }
    } else if context.classic_mode == AppMode::Settings {
        match (event.pressed, key_navigation(event.key, event.shift)) {
            (true, Some(navigation)) => KeyRoute::Navigate(navigation),
            _ => KeyRoute::Ignore,
        }
    } else if event.pressed && !event.repeat && is_letter(event.key, 'h', 'H') {
        KeyRoute::OpenGuide
    } else if event.pressed && event.key == KeyPress::Tab {
        KeyRoute::Navigate(
            if event.shift {
                NavigationAction::TabBackward
            } else {
                NavigationAction::TabForward
            },
        )
    } else if event.pressed && (event.key == KeyPress::Enter || event.key == KeyPress::Space)
        && context.classic_focus_present {
        KeyRoute::Navigate(NavigationAction::Activate)
    } else {
        match key_action(event.key) {
            Some(action) => KeyRoute::Classic { action, pressed: event.pressed },
            None => KeyRoute::Ignore,
        }
    }
}

/// Where a navigation step goes. With the guide open or off the Classic
/// Sector it moves and activates the shell's focus and pages the Workshop
/// view; in the Classic editor it belongs to the editor; on the Classic
/// settings screen it moves among the settings and Escape closes them; in
/// Classic play Tab moves focus and activation activates it.
pub open spec fn navigation_route(
    guide_open: bool,
    screen: ClientScreen,
    classic_mode: AppMode,
    navigation: NavigationAction,
) -> NavigationRoute {
    if guide_open || screen != ClientScreen::ClassicSector {
        match navigation {
            NavigationAction::TabBackward | NavigationAction::Left | NavigationAction::Up => NavigationRoute::ShellFocusPrevious,
            NavigationAction::TabForward | NavigationAction::Right | NavigationAction::Down => NavigationRoute::ShellFocusNext,
            NavigationAction::PageUp => NavigationRoute::WorkshopScrollPrevious,
            NavigationAction::PageDown => NavigationRoute::WorkshopScrollNext,
            NavigationAction::Activate => NavigationRoute::ShellActivate,
            NavigationAction::Escape => NavigationRoute::ShellEscape,
            _ => NavigationRoute::Ignore,
        }
    } else if classic_mode == AppMode::EditingScenario {
        NavigationRoute::Editor(navigation)
    } else if classic_mode == AppMode::Settings {
        match navigation {
            NavigationAction::TabBackward | NavigationAction::Left | NavigationAction::Up => NavigationRoute::ClassicFocusPrevious,
            NavigationAction::TabForward | NavigationAction::Right | NavigationAction::Down => NavigationRoute::ClassicFocusNext,
            NavigationAction::Activate => NavigationRoute::ClassicActivate,
            NavigationAction::Escape => NavigationRoute::CloseClassicSettings,
            _ => NavigationRoute::Ignore,
        }
    } else {
        match navigation {
            NavigationAction::TabBackward => NavigationRoute::ClassicFocusPrevious,
            NavigationAction::TabForward => NavigationRoute::ClassicFocusNext,
            NavigationAction::Activate => NavigationRoute::ClassicActivate,
            _ => NavigationRoute::Ignore,
        }
    }
}

/// What Escape closes: the innermost open layer first — the guide, a
/// waiting exit, the creator form, a removal confirmation, the Workshop
/// drawer, the credits — and then the screen itself.
pub open spec fn escape_route(context: EscapeContext) -> EscapeRoute {
    if context.guide_open {
        EscapeRoute::CloseGuide
    } else if context.exit_pending {
        EscapeRoute::CancelExit
    } else if context.creator_open {
        EscapeRoute::CloseCreator
    } else if context.removal_pending {
        EscapeRoute::CloseRemoval
    } else if context.screen == ClientScreen::GalaxyWorkshop && context.drawer_open {
        EscapeRoute::CloseDrawer
    } else if context.credits_visible {
        EscapeRoute::DismissCredits
    } else {
        match context.screen {
            ClientScreen::Settings => EscapeRoute::CloseSettings,
            ClientScreen::Library => EscapeRoute::CloseLibrary,
            ClientScreen::RecoverableError => EscapeRoute::DismissRecovery,
            ClientScreen::GalaxyWorkshop => EscapeRoute::ReturnToMainMenu,
            _ => EscapeRoute::Nothing,
        }
    }
}

pub fn offers_key_to_creator_field(context: KeyContext, event: KeyEvent) -> (offered: bool)
    ensures
        offered == offers_creator_field(context, event),
{
    !(event.pressed && !event.repeat && event.key == KeyPress::F1) && !context.guide_open
        && context.screen == ClientScreen::GalaxyWorkshop && event.pressed
}

pub fn route_key(context: KeyContext, event: KeyEvent, creator_took_it: bool) -> (route: KeyRoute)
    ensures
        route == key_route(context, event, creator_took_it),
{
    if event.pressed && !event.repeat && event.key == KeyPress::F1 {
        return if context.guide_open {
            KeyRoute::CloseGuide
        } else {
            KeyRoute::OpenGuide
        };
    }
    let navigation = navigation_for_key(event.key, event.shift);
    if context.guide_open {
        return match (event.pressed, navigation) {
            (true, Some(navigation)) => KeyRoute::Navigate(navigation),
            _ => KeyRoute::Ignore,
        };
    }
    if context.screen != ClientScreen::ClassicSector {
        if !event.pressed {
            return KeyRoute::Ignore;
        }
        let workshop = context.screen == ClientScreen::GalaxyWorkshop;
        if workshop && creator_took_it {
            return KeyRoute::Ignore;
        }
        if let Some(navigation) = navigation {
            return KeyRoute::Navigate(navigation);
        }
        if workshop && (event.key == KeyPress::Character('p') || event.key == KeyPress::Character('P')) {
            return if context.workshop_paused {
                KeyRoute::WorkshopResume
            } else {
                KeyRoute::WorkshopPause
            };
        }
        if workshop && (event.key == KeyPress::Character('s') || event.key == KeyPress::Character('S'))
            && event.command {
            return KeyRoute::WorkshopSave;
        }
        return KeyRoute::Ignore;
    }
    if context.classic_mode == AppMode::EditingScenario {
        if !event.pressed {
            return KeyRoute::Ignore;
        }
        if event.plain_text && context.editor_accepts_text {
            return KeyRoute::EditorText;
        }
        return match navigation {
            Some(navigation) => KeyRoute::Navigate(navigation),
            None => KeyRoute::Ignore,
        };
    }
    if context.classic_mode == AppMode::Settings {
        return match (event.pressed, navigation) {
            (true, Some(navigation)) => KeyRoute::Navigate(navigation),
            _ => KeyRoute::Ignore,
        };
    }
    if event.pressed && !event.repeat && (event.key == KeyPress::Character('h') || event.key
        == KeyPress::Character('H')) {
        return KeyRoute::OpenGuide;
    }
    if event.pressed && event.key == KeyPress::Tab {
        return KeyRoute::Navigate(
            if event.shift {
                NavigationAction::TabBackward
            } else {
                NavigationAction::TabForward
            },
        );
    }
    if event.pressed && (event.key == KeyPress::Enter || event.key == KeyPress::Space)
        && context.classic_focus_present {
        return KeyRoute::Navigate(NavigationAction::Activate);
    }
    match action_for_key(event.key) {
        Some(action) => KeyRoute::Classic { action, pressed: event.pressed },
        None => KeyRoute::Ignore,
    }
}

pub fn route_navigation(
    guide_open: bool,
    screen: ClientScreen,
    classic_mode: AppMode,
    navigation: NavigationAction,
) -> (route: NavigationRoute)
    ensures
        route == navigation_route(guide_open, screen, classic_mode, navigation),
{
    if guide_open || screen != ClientScreen::ClassicSector {
        match navigation {
            NavigationAction::TabBackward | NavigationAction::Left | NavigationAction::Up => NavigationRoute::ShellFocusPrevious,
            NavigationAction::TabForward | NavigationAction::Right | NavigationAction::Down => NavigationRoute::ShellFocusNext,
            NavigationAction::PageUp => NavigationRoute::WorkshopScrollPrevious,
            NavigationAction::PageDown => NavigationRoute::WorkshopScrollNext,
            NavigationAction::Activate => NavigationRoute::ShellActivate,
            NavigationAction::Escape => NavigationRoute::ShellEscape,
            _ => NavigationRoute::Ignore,
        }
    } else if classic_mode == AppMode::EditingScenario {
        NavigationRoute::Editor(navigation)
    } else if classic_mode == AppMode::Settings {
        match navigation {
            NavigationAction::TabBackward | NavigationAction::Left | NavigationAction::Up => NavigationRoute::ClassicFocusPrevious,
            NavigationAction::TabForward | NavigationAction::Right | NavigationAction::Down => NavigationRoute::ClassicFocusNext,
            NavigationAction::Activate => NavigationRoute::ClassicActivate,
            NavigationAction::Escape => NavigationRoute::CloseClassicSettings,
            _ => NavigationRoute::Ignore,
        }
    } else {
        match navigation {
            NavigationAction::TabBackward => NavigationRoute::ClassicFocusPrevious,
            NavigationAction::TabForward => NavigationRoute::ClassicFocusNext,
            NavigationAction::Activate => NavigationRoute::ClassicActivate,
            _ => NavigationRoute::Ignore,
        }
    }
}

pub fn route_escape(context: EscapeContext) -> (route: EscapeRoute)
    ensures
        route == escape_route(context),
{
    if context.guide_open {
        EscapeRoute::CloseGuide
    } else if context.exit_pending {
        EscapeRoute::CancelExit
    } else if context.creator_open {
        EscapeRoute::CloseCreator
    } else if context.removal_pending {
        EscapeRoute::CloseRemoval
    } else if context.screen == ClientScreen::GalaxyWorkshop && context.drawer_open {
        EscapeRoute::CloseDrawer
    } else if context.credits_visible {
        EscapeRoute::DismissCredits
    } else {
        match context.screen {
            ClientScreen::Settings => EscapeRoute::CloseSettings,
            ClientScreen::Library => EscapeRoute::CloseLibrary,
            ClientScreen::RecoverableError => EscapeRoute::DismissRecovery,
            ClientScreen::GalaxyWorkshop => EscapeRoute::ReturnToMainMenu,
            _ => EscapeRoute::Nothing,
        }
    }
}

/// F1 toggles the guide from every screen and mode: a fresh press opens a
/// closed guide and closes an open one.
pub proof fn lemma_guide_key_toggles_everywhere(context: KeyContext, event: KeyEvent, creator_took_it: bool)
    requires
        event.pressed,
        !event.repeat,
        event.key == KeyPress::F1,
    ensures
        key_route(context, event, creator_took_it) == (if context.guide_open {
            KeyRoute::CloseGuide
        } else {
            KeyRoute::OpenGuide
        }),
{
}

/// Game keys reach the game only in Classic play with the guide closed;
/// elsewhere no key becomes a game action.
pub proof fn lemma_game_keys_need_classic_play(context: KeyContext, event: KeyEvent, creator_took_it: bool)
    ensures
        key_route(context, event, creator_took_it) is Classic ==> {
            &&& !context.guide_open
            &&& context.screen == ClientScreen::ClassicSector
            &&& context.classic_mode == AppMode::Playing
        },
{
}

/// A released key never opens, navigates, types or saves anything; at
/// most it releases a held game action.
pub proof fn lemma_releases_only_release_game_actions(
    context: KeyContext,
    event: KeyEvent,
    creator_took_it: bool,
)
    requires
        !event.pressed,
    ensures
        key_route(context, event, creator_took_it) == KeyRoute::Ignore || key_route(
            context,
            event,
            creator_took_it,
        ) == (KeyRoute::Classic { action: key_action(event.key)->0, pressed: false }),
{
}

/// While the guide is open, a key either toggles the guide or navigates
/// the guide: nothing behind it sees the key.
pub proof fn lemma_open_guide_takes_every_key(context: KeyContext, event: KeyEvent, creator_took_it: bool)
    requires
        context.guide_open,
    ensures
        key_route(context, event, creator_took_it) is CloseGuide
            || key_route(context, event, creator_took_it) is Navigate
            || key_route(context, event, creator_took_it) is Ignore,
{
}

/// Escape closes the innermost layer first: with the guide open nothing
/// else is closed, and the screen itself is left only when no layer is
/// open over it.
pub proof fn lemma_escape_closes_the_innermost_layer(context: EscapeContext)
    ensures
        context.guide_open ==> escape_route(context) == EscapeRoute::CloseGuide,
        (escape_route(context) is ReturnToMainMenu || escape_route(context) is CloseSettings
            || escape_route(context) is CloseLibrary || escape_route(context) is DismissRecovery)
            ==> {
            &&& !context.guide_open
            &&& !context.exit_pending
            &&& !context.creator_open
            &&& !context.removal_pending
            &&& !context.credits_visible
        },
{
}

/// Which way a route moves keyboard focus: back (-1), forward (1) or not
/// at all (0). Tab keys handed to the editor move its focus the same way.
pub open spec fn focus_move(route: NavigationRoute) -> int {
    match route {
        NavigationRoute::ShellFocusPrevious | NavigationRoute::ClassicFocusPrevious => -1,
        NavigationRoute::ShellFocusNext | NavigationRoute::ClassicFocusNext => 1,
        NavigationRoute::Editor(NavigationAction::TabBackward) => -1,
        NavigationRoute::Editor(NavigationAction::TabForward) => 1,
        _ => 0,
    }
}

/// Which layer's focus a route moves: the shell (0), the Classic sector (1)
/// or the scenario editor (2); other routes move none (3).
pub open spec fn focus_layer(route: NavigationRoute) -> int {
    match route {
        NavigationRoute::ShellFocusPrevious | NavigationRoute::ShellFocusNext => 0,
        NavigationRoute::ClassicFocusPrevious | NavigationRoute::ClassicFocusNext => 1,
        NavigationRoute::Editor(_) => 2,
        _ => 3,
    }
}

/// Tab and Shift-Tab are inverse focus steps on every screen and in every
/// mode: Tab moves focus forward and Shift-Tab moves it back, both within
/// the same layer, so a Shift-Tab undoes a Tab. Arrow keys that move focus
/// move it the way they point (up and left back, down and right forward),
/// and so do the page keys when they scroll; activating never moves focus
/// and always activates the focused control of the layer on screen; and
/// over the shell or the guide, Escape goes to the shell's Escape.
pub proof fn lemma_tab_and_shift_tab_are_inverse_steps(
    guide_open: bool,
    screen: ClientScreen,
    mode: AppMode,
)
    ensures
        focus_move(navigation_route(guide_open, screen, mode, NavigationAction::TabForward)) == 1,
        focus_move(navigation_route(guide_open, screen, mode, NavigationAction::TabBackward)) == -1,
        focus_layer(navigation_route(guide_open, screen, mode, NavigationAction::TabForward))
            == focus_layer(navigation_route(guide_open, screen, mode, NavigationAction::TabBackward)),
        focus_layer(navigation_route(guide_open, screen, mode, NavigationAction::TabForward)) < 3,
        focus_move(navigation_route(guide_open, screen, mode, NavigationAction::Up)) <= 0,
        focus_move(navigation_route(guide_open, screen, mode, NavigationAction::Left)) <= 0,
        focus_move(navigation_route(guide_open, screen, mode, NavigationAction::Down)) >= 0,
        focus_move(navigation_route(guide_open, screen, mode, NavigationAction::Right)) >= 0,
        focus_move(navigation_route(guide_open, screen, mode, NavigationAction::Activate)) == 0,
        focus_move(navigation_route(guide_open, screen, mode, NavigationAction::Escape)) == 0,
        navigation_route(guide_open, screen, mode, NavigationAction::Activate) is ShellActivate
            || navigation_route(guide_open, screen, mode, NavigationAction::Activate) is ClassicActivate
            || navigation_route(guide_open, screen, mode, NavigationAction::Activate) == NavigationRoute::Editor(
            NavigationAction::Activate,
        ),
        !(navigation_route(guide_open, screen, mode, NavigationAction::PageUp) is WorkshopScrollNext),
        !(navigation_route(guide_open, screen, mode, NavigationAction::PageDown) is WorkshopScrollPrevious),
        (guide_open || screen != ClientScreen::ClassicSector) ==> navigation_route(
            guide_open,
            screen,
            mode,
            NavigationAction::Escape,
        ) is ShellEscape,
{
}

} // verus!
