use vstd::prelude::*;

use crate::route::{Action, Route};
use crate::ui_tree::{
    has_child_named, node_view, Anchor, Content, ImageAsset, Layout, NodeView, Scaling, UiTree,
};

verus! {

/// Marker of the main menu route: while an entity carries it, the main menu
/// is the active screen.
#[derive(Clone, Copy, Debug, Default, PartialEq, Eq, Structural)]
pub struct MainMenuRoute;

/// The action that a main-menu button stands for.
#[derive(Clone, Copy, Debug, PartialEq, Eq, Structural)]
pub enum MainMenuButton {
    Continue,
    NewGame,
    LoadGame,
    Settings,
    AdditionalContent,
    Credits,
    QuitGame,
}

/// Vertical gap between two stacked buttons, in percent of the list height.
pub const GAP: u32 = 3;

/// Height of one button, in percent of the list height.
pub const ITEM_SIZE: u32 = 14;

/// Index of the button list container in the main menu tree.
pub const LIST_NODE: usize = 6;

/// Number of nodes that the main menu has besides its buttons.
pub const FRAME_NODES: usize = 7;

impl MainMenuButton {
    /// The text shown on the button, which is also its node's name.
    pub open spec fn label(self) -> Seq<char> {
        match self {
            MainMenuButton::Continue => "CONTINUE"@,
            MainMenuButton::NewGame => "NEW GAME"@,
            MainMenuButton::LoadGame => "LOAD GAME"@,
            MainMenuButton::Settings => "SETTINGS"@,
            MainMenuButton::AdditionalContent => "ADDITIONAL CONTENT"@,
            MainMenuButton::Credits => "CREDITS"@,
            MainMenuButton::QuitGame => "QUIT GAME"@,
        }
    }

    pub open spec fn action_spec(self) -> Action {
        match self {
            MainMenuButton::NewGame => Action::Navigate(Route::CharacterCreator),
            MainMenuButton::LoadGame => Action::Navigate(Route::LoadGame),
            MainMenuButton::Settings => Action::Navigate(Route::Settings),
            MainMenuButton::QuitGame => Action::Exit,
            _ => Action::Nothing,
        }
    }

    pub fn str(&self) -> (s: String)
        ensures
            s@ == self.label(),
    {
        match self {
            MainMenuButton::Continue => String::from_str("CONTINUE"),
            MainMenuButton::NewGame => String::from_str("NEW GAME"),
            MainMenuButton::LoadGame => String::from_str("LOAD GAME"),
            MainMenuButton::Settings => String::from_str("SETTINGS"),
            MainMenuButton::AdditionalContent => String::from_str("ADDITIONAL CONTENT"),
            MainMenuButton::Credits => String::from_str("CREDITS"),
            MainMenuButton::QuitGame => String::from_str("QUIT GAME"),
        }
    }

    /// What pressing the button does: three buttons move to another screen,
    /// one ends the application, the rest are inert.
    pub fn action(&self) -> (a: Action)
        ensures
            a == self.action_spec(),
    {
        match self {
            MainMenuButton::NewGame => Action::Navigate(Route::CharacterCreator),
            MainMenuButton::LoadGame => Action::Navigate(Route::LoadGame),
            MainMenuButton::Settings => Action::Navigate(Route::Settings),
            MainMenuButton::QuitGame => Action::Exit,
            _ => Action::Nothing,
        }
    }
}

/// Different buttons carry different labels.
pub proof fn lemma_labels_distinct(a: MainMenuButton, b: MainMenuButton)
    requires
        a != b,
    ensures
        a.label() != b.label(),
{
    reveal_strlit("CONTINUE");
    reveal_strlit("NEW GAME");
    reveal_strlit("LOAD GAME");
    reveal_strlit("SETTINGS");
    reveal_strlit("ADDITIONAL CONTENT");
    reveal_strlit("CREDITS");
    reveal_strlit("QUIT GAME");
    assert(a.label()[0] != b.label()[0] || a.label().len() != b.label().len());
}

pub open spec fn all_buttons() -> Seq<MainMenuButton> {
    seq![
        MainMenuButton::Continue,
        MainMenuButton::NewGame,
        MainMenuButton::LoadGame,
        MainMenuButton::Settings,
        MainMenuButton::AdditionalContent,
        MainMenuButton::Credits,
        MainMenuButton::QuitGame,
    ]
}

/// A list of distinct buttons has at most one entry per kind.
proof fn lemma_distinct_buttons_bounded(s: Seq<MainMenuButton>)
    requires
        s.no_duplicates(),
    ensures
        s.len() <= 7,
{
    let all = all_buttons().to_set();
    assert(all_buttons().no_duplicates());
    all_buttons().unique_seq_to_set();
    s.unique_seq_to_set();
    assert forall|b: MainMenuButton| s.to_set().contains(b) implies all.contains(b) by {
        match b {
            MainMenuButton::Continue => assert(all_buttons()[0] == b),
            MainMenuButton::NewGame => assert(all_buttons()[1] == b),
            MainMenuButton::LoadGame => assert(all_buttons()[2] == b),
            MainMenuButton::Settings => assert(all_buttons()[3] == b),
            MainMenuButton::AdditionalContent => assert(all_buttons()[4] == b),
            MainMenuButton::Credits => assert(all_buttons()[5] == b),
            MainMenuButton::QuitGame => assert(all_buttons()[6] == b),
        }
    }
    vstd::set_lib::lemma_len_subset(s.to_set(), all);
}

/// The menu's buttons, top to bottom.
pub fn main_menu_buttons() -> (v: Vec<MainMenuButton>)
    ensures
        v@ == all_buttons(),
{
    let v = vec![
        MainMenuButton::Continue,
        MainMenuButton::NewGame,
        MainMenuButton::LoadGame,
        MainMenuButton::Settings,
        MainMenuButton::AdditionalContent,
        MainMenuButton::Credits,
        MainMenuButton::QuitGame,
    ];
    assert(v@ =~= all_buttons());
    v
}

/// The nodes of the main menu that do not depend on its buttons.
pub open spec fn frame_nodes() -> Seq<NodeView> {
    seq![
        node_view(None, "Root"@, Layout::WindowFull, Content::Empty),
        node_view(
            Some(0),
            "Background"@,
            Layout::Solid { width: 2968, height: 1656, align_x: 0, scaling: Scaling::Fill },
            Content::Image(ImageAsset::MainBackground),
        ),
        node_view(
            Some(0),
            "Solid"@,
            Layout::Solid { width: 881, height: 1600, align_x: -74i32, scaling: Scaling::Fit },
            Content::Empty,
        ),
        node_view(
            Some(2),
            "Board"@,
            Layout::Window { x: 50, y: 0, width: 105, height: 105, anchor: Anchor::TopCenter },
            Content::Image(ImageAsset::MainBoard),
        ),
        node_view(
            Some(3),
            "Boundary"@,
            Layout::Window { x: 0, y: 11, width: 105, height: 20, anchor: Anchor::TopLeft },
            Content::Empty,
        ),
        node_view(
            Some(4),
            "Logo"@,
            Layout::Solid { width: 1240, height: 381, align_x: 0, scaling: Scaling::Fit },
            Content::Image(ImageAsset::MainLogo),
        ),
        node_view(
            Some(3),
            "List"@,
            Layout::Window { x: 22, y: 33, width: 55, height: 34, anchor: Anchor::TopLeft },
            Content::Empty,
        ),
    ]
}

/// Vertical offset of the `k`-th button: each earlier button takes its own
/// height plus one gap.
pub open spec fn item_offset(k: int) -> int {
    k * (GAP + ITEM_SIZE)
}

/// The node of the `k`-th button in the list.
pub open spec fn item_node(k: int, b: MainMenuButton) -> NodeView {
    node_view(
        Some(LIST_NODE),
        b.label(),
        Layout::Window { x: 0, y: item_offset(k) as u32, width: 100, height: ITEM_SIZE, anchor: Anchor::TopLeft },
        Content::MainButton(b),
    )
}

pub open spec fn item_nodes(buttons: Seq<MainMenuButton>) -> Seq<NodeView> {
    Seq::new(buttons.len(), |k: int| item_node(k, buttons[k]))
}

/// The whole main menu tree for a list of buttons.
pub open spec fn main_menu_nodes(buttons: Seq<MainMenuButton>) -> Seq<NodeView> {
    frame_nodes() + item_nodes(buttons)
}

/// Builds the main menu tree: the frame (root, background, board, logo and
/// the list container), then one button per entry of `buttons`, stacked top
/// to bottom in list order.
pub fn build_route(buttons: &Vec<MainMenuButton>) -> (t: UiTree)
    requires
        buttons@.no_duplicates(),
    ensures
        t.wf(),
        t.name@ == "MainMenu"@,
        t@ == main_menu_nodes(buttons@),
{
    proof {
        lemma_distinct_buttons_bounded(buttons@);
    }
    let mut t = UiTree::new(String::from_str("MainMenu"));
    let _ = t.add_node(None, String::from_str("Root"), Layout::WindowFull, Content::Empty);
    let _ = t.add_node(
        Some(0),
        String::from_str("Background"),
        Layout::Solid { width: 2968, height: 1656, align_x: 0, scaling: Scaling::Fill },
        Content::Image(ImageAsset::MainBackground),
    );
    assert(!has_child_named(t@, Some(0), "Solid"@)) by {
        reveal_strlit("Background");
        reveal_strlit("Solid");
        assert("Background"@.len() != "Solid"@.len());
    }
    let _ = t.add_node(
        Some(0),
        String::from_str("Solid"),
        Layout::Solid { width: 881, height: 1600, align_x: -74, scaling: Scaling::Fit },
        Content::Empty,
    );
    let _ = t.add_node(
        Some(2),
        String::from_str("Board"),
        Layout::Window { x: 50, y: 0, width: 105, height: 105, anchor: Anchor::TopCenter },
        Content::Image(ImageAsset::MainBoard),
    );
    let _ = t.add_node(
        Some(3),
        String::from_str("Boundary"),
        Layout::Window { x: 0, y: 11, width: 105, height: 20, anchor: Anchor::TopLeft },
        Content::Empty,
    );
    let _ = t.add_node(
        Some(4),
        String::from_str("Logo"),
        Layout::Solid { width: 1240, height: 381, align_x: 0, scaling: Scaling::Fit },
        Content::Image(ImageAsset::MainLogo),
    );
    assert(!has_child_named(t@, Some(3), "List"@)) by {
        reveal_strlit("Boundary");
        reveal_strlit("List");
        assert("Boundary"@.len() != "List"@.len());
    }
    let _ = t.add_node(
        Some(3),
        String::from_str("List"),
        Layout::Window { x: 22, y: 33, width: 55, height: 34, anchor: Anchor::TopLeft },
        Content::Empty,
    );
    assert(t@ =~= frame_nodes());
    let mut offset: u32 = 0;
    let mut i: usize = 0;
    while i < buttons.len()
        invariant
            buttons@.no_duplicates(),
            buttons@.len() <= 7,
            i <= buttons@.len(),
            offset == item_offset(i as int),
            t.wf(),
            t.name@ == "MainMenu"@,
            t@ == main_menu_nodes(buttons@.take(i as int)),
        decreases buttons@.len() - i,
    {
        let button = buttons[i];
        let ghost before = t@;
        assert forall|k: int| 0 <= k < before.len() implies !((#[trigger] before[k]).parent == Some(LIST_NODE)
            && before[k].name == button.label()) by {
            if k >= FRAME_NODES {
                let j = k - FRAME_NODES;
                assert(before[k] == item_node(j, buttons@[j]));
                assert(buttons@[j] != buttons@[i as int]);
                lemma_labels_distinct(buttons@[j], button);
            }
        }
        let _ = t.add_node(
            Some(LIST_NODE),
            button.str(),
            Layout::Window { x: 0, y: offset, width: 100, height: ITEM_SIZE, anchor: Anchor::TopLeft },
            Content::MainButton(button),
        );
        assert(t@ =~= main_menu_nodes(buttons@.take(i + 1)));
        offset = offset + GAP + ITEM_SIZE;
        i += 1;
    }
    assert(buttons@.take(i as int) =~= buttons@);
    t
}

} // verus!
