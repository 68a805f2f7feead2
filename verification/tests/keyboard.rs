use nyon::client::ClientScreen;
use nyon::input::{Action, KeyPress, NavigationAction};
use nyon::keyboard::{
    EscapeContext, EscapeRoute, KeyContext, KeyEvent, KeyRoute, NavigationRoute,
    offers_key_to_creator_field, route_escape, route_key, route_navigation,
};
use nyon::session::AppMode;

fn classic_play() -> KeyContext {
    KeyContext {
        guide_open: false,
        screen: ClientScreen::ClassicSector,
        classic_mode: AppMode::Playing,
        editor_accepts_text: false,
        classic_focus_present: false,
        workshop_paused: false,
    }
}

fn press(key: KeyPress) -> KeyEvent {
    KeyEvent { key, pressed: true, repeat: false, shift: false, command: false, plain_text: false }
}

fn release(key: KeyPress) -> KeyEvent {
    KeyEvent { pressed: false, ..press(key) }
}

#[test]
fn f1_toggles_the_guide_on_every_screen() {
    for screen in [ClientScreen::MainMenu, ClientScreen::ClassicSector, ClientScreen::GalaxyWorkshop] {
        let closed = KeyContext { screen, ..classic_play() };
        assert_eq!(route_key(closed, press(KeyPress::F1), false), KeyRoute::OpenGuide);
        let open = KeyContext { guide_open: true, ..closed };
        assert_eq!(route_key(open, press(KeyPress::F1), false), KeyRoute::CloseGuide);
    }
    let repeated = KeyEvent { repeat: true, ..press(KeyPress::F1) };
    assert_eq!(route_key(classic_play(), repeated, false), KeyRoute::Ignore);
}

#[test]
fn an_open_guide_only_takes_navigation() {
    let guide = KeyContext { guide_open: true, ..classic_play() };
    assert_eq!(
        route_key(guide, press(KeyPress::ArrowDown), false),
        KeyRoute::Navigate(NavigationAction::Down)
    );
    assert_eq!(route_key(guide, press(KeyPress::Character('p')), false), KeyRoute::Ignore);
    assert_eq!(route_key(guide, release(KeyPress::Escape), false), KeyRoute::Ignore);
}

#[test]
fn classic_play_holds_and_releases_game_keys() {
    let context = classic_play();
    assert_eq!(
        route_key(context, press(KeyPress::Character('q')), false),
        KeyRoute::Classic { action: Action::Decrease, pressed: true }
    );
    assert_eq!(
        route_key(context, release(KeyPress::Character('Q')), false),
        KeyRoute::Classic { action: Action::Decrease, pressed: false }
    );
    assert_eq!(route_key(context, press(KeyPress::Character('h')), false), KeyRoute::OpenGuide);
    assert_eq!(
        route_key(context, KeyEvent { shift: true, ..press(KeyPress::Tab) }, false),
        KeyRoute::Navigate(NavigationAction::TabBackward)
    );
    assert_eq!(
        route_key(context, press(KeyPress::Space), false),
        KeyRoute::Classic { action: Action::Launch, pressed: true }
    );
    let focused = KeyContext { classic_focus_present: true, ..context };
    assert_eq!(
        route_key(focused, press(KeyPress::Space), false),
        KeyRoute::Navigate(NavigationAction::Activate)
    );
    assert_eq!(route_key(context, press(KeyPress::ArrowUp), false), KeyRoute::Ignore);
}

#[test]
fn the_classic_editor_takes_text_before_navigation() {
    let editor = KeyContext {
        classic_mode: AppMode::EditingScenario,
        editor_accepts_text: true,
        ..classic_play()
    };
    let typed = KeyEvent { plain_text: true, ..press(KeyPress::Character('a')) };
    assert_eq!(route_key(editor, typed, false), KeyRoute::EditorText);
    assert_eq!(
        route_key(editor, press(KeyPress::Backspace), false),
        KeyRoute::Navigate(NavigationAction::Backspace)
    );
    let no_text = KeyContext { editor_accepts_text: false, ..editor };
    assert_eq!(route_key(no_text, typed, false), KeyRoute::Ignore);
}

#[test]
fn the_workshop_pauses_resumes_and_saves_from_the_keyboard() {
    let workshop = KeyContext { screen: ClientScreen::GalaxyWorkshop, ..classic_play() };
    assert!(offers_key_to_creator_field(workshop, press(KeyPress::Character('p'))));
    assert!(!offers_key_to_creator_field(workshop, release(KeyPress::Character('p'))));
    assert_eq!(route_key(workshop, press(KeyPress::Character('P')), false), KeyRoute::WorkshopPause);
    let paused = KeyContext { workshop_paused: true, ..workshop };
    assert_eq!(route_key(paused, press(KeyPress::Character('p')), false), KeyRoute::WorkshopResume);
    assert_eq!(route_key(workshop, press(KeyPress::Character('s')), false), KeyRoute::Ignore);
    assert_eq!(
        route_key(workshop, KeyEvent { command: true, ..press(KeyPress::Character('s')) }, false),
        KeyRoute::WorkshopSave
    );
    assert_eq!(route_key(workshop, press(KeyPress::Character('p')), true), KeyRoute::Ignore);
}

#[test]
fn navigation_reaches_the_layer_on_screen() {
    assert_eq!(
        route_navigation(false, ClientScreen::MainMenu, AppMode::Playing, NavigationAction::Left),
        NavigationRoute::ShellFocusPrevious
    );
    assert_eq!(
        route_navigation(true, ClientScreen::ClassicSector, AppMode::Playing, NavigationAction::PageDown),
        NavigationRoute::WorkshopScrollNext
    );
    assert_eq!(
        route_navigation(false, ClientScreen::ClassicSector, AppMode::EditingScenario, NavigationAction::Home),
        NavigationRoute::Editor(NavigationAction::Home)
    );
    assert_eq!(
        route_navigation(false, ClientScreen::ClassicSector, AppMode::Settings, NavigationAction::Escape),
        NavigationRoute::CloseClassicSettings
    );
    assert_eq!(
        route_navigation(false, ClientScreen::ClassicSector, AppMode::Playing, NavigationAction::Up),
        NavigationRoute::Ignore
    );
    assert_eq!(
        route_navigation(false, ClientScreen::ClassicSector, AppMode::Playing, NavigationAction::Activate),
        NavigationRoute::ClassicActivate
    );
}

#[test]
fn escape_closes_the_innermost_layer_first() {
    let bare = EscapeContext {
        guide_open: false,
        exit_pending: false,
        creator_open: false,
        removal_pending: false,
        screen: ClientScreen::GalaxyWorkshop,
        drawer_open: false,
        credits_visible: false,
    };
    assert_eq!(route_escape(bare), EscapeRoute::ReturnToMainMenu);
    assert_eq!(route_escape(EscapeContext { drawer_open: true, ..bare }), EscapeRoute::CloseDrawer);
    assert_eq!(
        route_escape(EscapeContext { drawer_open: true, creator_open: true, ..bare }),
        EscapeRoute::CloseCreator
    );
    assert_eq!(
        route_escape(EscapeContext { exit_pending: true, creator_open: true, ..bare }),
        EscapeRoute::CancelExit
    );
    assert_eq!(
        route_escape(EscapeContext { guide_open: true, exit_pending: true, ..bare }),
        EscapeRoute::CloseGuide
    );
    assert_eq!(
        route_escape(EscapeContext { screen: ClientScreen::Library, ..bare }),
        EscapeRoute::CloseLibrary
    );
    assert_eq!(
        route_escape(EscapeContext { screen: ClientScreen::Settings, credits_visible: true, ..bare }),
        EscapeRoute::DismissCredits
    );
    assert_eq!(
        route_escape(EscapeContext { screen: ClientScreen::MainMenu, drawer_open: true, ..bare }),
        EscapeRoute::Nothing
    );
}
