use bevypunk::main_button::{ClickDetector, PointerEvent};
use bevypunk::main_menu::{build_route, main_menu_buttons, MainMenuButton, LIST_NODE};
use bevypunk::navigator::{ClickEvent, NodeRef, Navigator};
use bevypunk::route::{Action, Route};
use bevypunk::schedule::{Hook, MainMenuRoutePlugin, RoutePlugin, Schedule, ScheduleError};
use bevypunk::ui_tree::{Anchor, Content, Layout, TreeError, UiTree};

fn main_menu_navigator() -> Navigator {
    let mut nav = Navigator::new();
    nav.navigate(Route::MainMenu);
    assert!(nav.run_main_menu_builder());
    nav
}

fn click(nav: &Navigator, node: usize) -> ClickEvent {
    ClickEvent { target: NodeRef { route: nav.active_id(), node } }
}

#[test]
fn button_labels() {
    assert_eq!(MainMenuButton::Continue.str(), "CONTINUE");
    assert_eq!(MainMenuButton::NewGame.str(), "NEW GAME");
    assert_eq!(MainMenuButton::LoadGame.str(), "LOAD GAME");
    assert_eq!(MainMenuButton::Settings.str(), "SETTINGS");
    assert_eq!(MainMenuButton::AdditionalContent.str(), "ADDITIONAL CONTENT");
    assert_eq!(MainMenuButton::Credits.str(), "CREDITS");
    assert_eq!(MainMenuButton::QuitGame.str(), "QUIT GAME");
}

#[test]
fn button_actions() {
    assert_eq!(MainMenuButton::Continue.action(), Action::Nothing);
    assert_eq!(MainMenuButton::NewGame.action(), Action::Navigate(Route::CharacterCreator));
    assert_eq!(MainMenuButton::LoadGame.action(), Action::Navigate(Route::LoadGame));
    assert_eq!(MainMenuButton::Settings.action(), Action::Navigate(Route::Settings));
    assert_eq!(MainMenuButton::AdditionalContent.action(), Action::Nothing);
    assert_eq!(MainMenuButton::Credits.action(), Action::Nothing);
    assert_eq!(MainMenuButton::QuitGame.action(), Action::Exit);
}

#[test]
fn main_menu_tree_layout() {
    let t = build_route(&main_menu_buttons());
    assert_eq!(t.name, "MainMenu");
    assert_eq!(t.len(), 14);
    let names: Vec<&str> = t.nodes.iter().map(|n| n.name.as_str()).collect();
    assert_eq!(
        names,
        vec![
            "Root", "Background", "Solid", "Board", "Boundary", "Logo", "List", "CONTINUE", "NEW GAME",
            "LOAD GAME", "SETTINGS", "ADDITIONAL CONTENT", "CREDITS", "QUIT GAME",
        ]
    );
    let parents: Vec<Option<usize>> = t.nodes.iter().map(|n| n.parent).collect();
    assert_eq!(&parents[..7], &[None, Some(0), Some(0), Some(2), Some(3), Some(4), Some(3)]);
    for (k, node) in t.nodes[7..].iter().enumerate() {
        assert_eq!(node.parent, Some(LIST_NODE));
        assert_eq!(
            node.layout,
            Layout::Window { x: 0, y: 17 * k as u32, width: 100, height: 14, anchor: Anchor::TopLeft }
        );
    }
    assert_eq!(t.nodes[13].layout, Layout::Window { x: 0, y: 102, width: 100, height: 14, anchor: Anchor::TopLeft });
    assert_eq!(t.nodes[8].content, Content::MainButton(MainMenuButton::NewGame));
}

#[test]
fn every_node_follows_its_parent() {
    let t = build_route(&main_menu_buttons());
    for (i, node) in t.nodes.iter().enumerate() {
        if let Some(p) = node.parent {
            assert!(p < i);
        }
    }
}

#[test]
fn empty_button_list_gives_bare_frame() {
    let t = build_route(&Vec::new());
    assert_eq!(t.len(), 7);
    assert_eq!(t.nodes[LIST_NODE].name, "List");
    assert_eq!(t.nodes[LIST_NODE].content, Content::Empty);
    assert!(t.nodes.iter().all(|n| n.parent != Some(LIST_NODE)));
}

#[test]
fn single_button_list() {
    let t = build_route(&vec![MainMenuButton::QuitGame]);
    assert_eq!(t.len(), 8);
    assert_eq!(t.nodes[7].name, "QUIT GAME");
    assert_eq!(t.nodes[7].layout, Layout::Window { x: 0, y: 0, width: 100, height: 14, anchor: Anchor::TopLeft });
}

#[test]
fn add_node_errors() {
    let mut t = UiTree::new(String::from("T"));
    assert_eq!(t.add_node(Some(0), String::from("A"), Layout::WindowFull, Content::Empty), Err(TreeError::MissingParent));
    assert_eq!(t.add_node(None, String::from("A"), Layout::WindowFull, Content::Empty), Ok(0));
    assert_eq!(t.add_node(None, String::from("A"), Layout::WindowFull, Content::Empty), Err(TreeError::DuplicatePath));
    assert_eq!(t.add_node(Some(0), String::from("A"), Layout::WindowFull, Content::Empty), Ok(1));
    assert_eq!(t.add_node(Some(0), String::from("A"), Layout::WindowFull, Content::Empty), Err(TreeError::DuplicatePath));
    assert_eq!(t.add_node(Some(2), String::from("B"), Layout::WindowFull, Content::Empty), Err(TreeError::MissingParent));
    assert_eq!(t.len(), 2);
}

#[test]
fn bootstrap_starts_on_intro() {
    let mut nav = Navigator::new();
    assert_eq!(nav.active_route(), Route::Intro);
    assert_eq!(nav.node_count(), 0);
    assert!(!nav.run_main_menu_builder());
    assert_eq!(nav.node_count(), 0);
}

#[test]
fn builder_runs_once() {
    let mut nav = main_menu_navigator();
    assert_eq!(nav.node_count(), 14);
    assert!(!nav.run_main_menu_builder());
    assert!(!nav.run_main_menu_builder());
    assert_eq!(nav.node_count(), 14);
}

#[test]
fn new_game_replaces_main_menu() {
    let mut nav = main_menu_navigator();
    let old_id = nav.active_id();
    let ev = click(&nav, 8);
    assert_eq!(nav.handle_main_menu_click(ev), Action::Navigate(Route::CharacterCreator));
    assert_eq!(nav.active_route(), Route::CharacterCreator);
    assert_ne!(nav.active_id(), old_id);
    assert_eq!(nav.node_count(), 0);
    assert_eq!(nav.tag_of(ev.target), None);
    assert_eq!(nav.tag_of(NodeRef { route: old_id, node: 0 }), None);
    assert_eq!(nav.handle_main_menu_click(ev), Action::Nothing);
    assert_eq!(nav.active_route(), Route::CharacterCreator);
}

#[test]
fn load_game_and_settings_navigate() {
    let mut nav = main_menu_navigator();
    assert_eq!(nav.handle_main_menu_click(click(&nav, 9)), Action::Navigate(Route::LoadGame));
    assert_eq!(nav.active_route(), Route::LoadGame);
    let mut nav = main_menu_navigator();
    assert_eq!(nav.handle_main_menu_click(click(&nav, 10)), Action::Navigate(Route::Settings));
    assert_eq!(nav.active_route(), Route::Settings);
}

#[test]
fn quit_game_requests_exit_once() {
    let mut nav = main_menu_navigator();
    let id = nav.active_id();
    assert_eq!(nav.handle_main_menu_click(click(&nav, 13)), Action::Exit);
    assert_eq!(nav.active_route(), Route::MainMenu);
    assert_eq!(nav.active_id(), id);
    assert_eq!(nav.node_count(), 14);
}

#[test]
fn frame_of_clicks_after_navigation_is_ignored() {
    let mut nav = main_menu_navigator();
    let first = click(&nav, 10);
    let quit = click(&nav, 13);
    let actions = nav.handle_main_menu_clicks(&vec![first, quit]);
    assert_eq!(actions, vec![Action::Navigate(Route::Settings), Action::Nothing]);
    assert_eq!(nav.active_route(), Route::Settings);
}

#[test]
fn frame_with_one_quit_click_exits_once() {
    let mut nav = main_menu_navigator();
    let events = vec![click(&nav, 7), click(&nav, 13), click(&nav, 0)];
    let actions = nav.handle_main_menu_clicks(&events);
    assert_eq!(actions, vec![Action::Nothing, Action::Exit, Action::Nothing]);
    assert_eq!(actions.iter().filter(|a| **a == Action::Exit).count(), 1);
    assert_eq!(nav.active_route(), Route::MainMenu);
    assert_eq!(nav.node_count(), 14);
    assert!(nav.handle_main_menu_clicks(&Vec::new()).is_empty());
}

#[test]
fn inert_buttons_change_nothing() {
    let mut nav = main_menu_navigator();
    let id = nav.active_id();
    for node in [7, 11, 12] {
        assert_eq!(nav.handle_main_menu_click(click(&nav, node)), Action::Nothing);
    }
    assert_eq!(nav.active_route(), Route::MainMenu);
    assert_eq!(nav.active_id(), id);
}

#[test]
fn clicks_without_main_menu_tag_are_ignored() {
    let mut nav = main_menu_navigator();
    let id = nav.active_id();
    assert_eq!(nav.handle_main_menu_click(click(&nav, 0)), Action::Nothing);
    assert_eq!(nav.handle_main_menu_click(click(&nav, 99)), Action::Nothing);
    let stale = ClickEvent { target: NodeRef { route: id + 5, node: 8 } };
    assert_eq!(nav.handle_main_menu_click(stale), Action::Nothing);
    assert_eq!(nav.active_route(), Route::MainMenu);
    assert_eq!(nav.active_id(), id);
}

#[test]
fn click_needs_press_then_release_on_same_node() {
    let a = NodeRef { route: 1, node: 8 };
    let b = NodeRef { route: 1, node: 9 };
    let mut d = ClickDetector::new();
    assert_eq!(d.on_pointer(PointerEvent::Release(a)), None);
    assert_eq!(d.on_pointer(PointerEvent::Press(a)), None);
    assert_eq!(d.on_pointer(PointerEvent::Release(a)), Some(ClickEvent { target: a }));
    assert_eq!(d.on_pointer(PointerEvent::Release(a)), None);
    assert_eq!(d.on_pointer(PointerEvent::Press(a)), None);
    assert_eq!(d.on_pointer(PointerEvent::Release(b)), None);
    assert_eq!(d.on_pointer(PointerEvent::Press(a)), None);
    assert_eq!(d.on_pointer(PointerEvent::Press(b)), None);
    assert_eq!(d.on_pointer(PointerEvent::Release(b)), Some(ClickEvent { target: b }));
    assert_eq!(d.on_pointer(PointerEvent::Press(a)), None);
    assert_eq!(d.on_pointer(PointerEvent::Cancel), None);
    assert_eq!(d.on_pointer(PointerEvent::Release(a)), None);
}

#[test]
fn node_paths_join_segments() {
    let t = build_route(&main_menu_buttons());
    assert_eq!(t.path_string(0), "Root");
    assert_eq!(t.path_string(1), "Root/Background");
    assert_eq!(t.path_string(5), "Root/Solid/Board/Boundary/Logo");
    assert_eq!(t.path_string(6), "Root/Solid/Board/List");
    assert_eq!(t.path_string(8), "Root/Solid/Board/List/NEW GAME");
}

#[test]
fn route_plugin_registers_every_route() {
    let mut s = Schedule::new();
    RoutePlugin.build(&mut s);
    assert_eq!(s.entries.len(), 6);
    let builders = s.entries.iter().filter(|e| e.hook == Hook::Builder).count();
    assert_eq!(builders, 5);
    assert!(s.entries.iter().any(|e| e.hook == Hook::Handler && e.route == Route::MainMenu));
    assert!(s.has_builder(Route::Intro));
}

#[test]
fn duplicate_builder_is_refused() {
    let mut s = Schedule::new();
    assert_eq!(MainMenuRoutePlugin.build(&mut s), Ok(()));
    assert_eq!(s.entries.len(), 2);
    assert_eq!(MainMenuRoutePlugin.build(&mut s), Err(ScheduleError::DuplicateBuilder(Route::MainMenu)));
    assert_eq!(s.entries.len(), 2);
}
