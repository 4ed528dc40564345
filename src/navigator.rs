use vstd::prelude::*;

use crate::main_menu::{all_buttons, build_route, main_menu_buttons, main_menu_nodes, MainMenuButton};
use crate::route::{Action, Route};
use crate::ui_tree::{Content, NodeView, UiTree};

verus! {

/// Address of a UI node: the id of the route entity that owns it and the
/// node's index in that route's tree.
#[derive(Clone, Copy, Debug, PartialEq, Eq, Structural)]
pub struct NodeRef {
    pub route: u64,
    pub node: usize,
}

/// A completed press-and-release on one interactive node.
#[derive(Clone, Copy, Debug, PartialEq, Eq, Structural)]
pub struct ClickEvent {
    pub target: NodeRef,
}

/// The entity that carries a route marker, and the UI tree built under it
/// (`None` until its builder has run).
pub struct RouteEntity {
    pub id: u64,
    pub route: Route,
    pub tree: Option<UiTree>,
}

/// The single slot that holds the active route. Every transition replaces
/// the entity in the slot, so exactly one route is live at any time.
pub struct Navigator {
    pub current: RouteEntity,
    /// The id that the next spawned route entity receives.
    pub next_id: u64,
}

impl Navigator {
    pub open spec fn wf(&self) -> bool {
        &&& self.current.id < self.next_id
        &&& match self.current.tree {
            Some(t) => t.wf(),
            None => true,
        }
    }

    /// The live route entities, as (id, route) pairs.
    pub open spec fn live_routes(&self) -> Seq<(u64, Route)> {
        seq![(self.current.id, self.current.route)]
    }

    /// The node that `r` addresses, if it is part of the live route's tree.
    pub open spec fn node_at(&self, r: NodeRef) -> Option<NodeView> {
        match self.current.tree {
            Some(t) => if r.route == self.current.id && r.node < t@.len() {
                Some(t@[r.node as int])
            } else {
                None
            },
            None => None,
        }
    }

    /// The main-menu tag carried by the node that `r` addresses, if any.
    pub open spec fn tag_at(&self, r: NodeRef) -> Option<MainMenuButton> {
        match self.node_at(r) {
            Some(n) => match n.content {
                Content::MainButton(b) => Some(b),
                _ => None,
            },
            None => None,
        }
    }

    /// What the main menu's handler does about a click: act on the tag of
    /// the clicked node, and ignore a node without one.
    pub open spec fn main_menu_action(&self, ev: ClickEvent) -> Action {
        match self.tag_at(ev.target) {
            Some(b) => b.action_spec(),
            None => Action::Nothing,
        }
    }

    /// `new` is `old` after the active route was torn down and a fresh,
    /// not yet built entity for `to` took its place.
    pub open spec fn navigated(old: Navigator, new: Navigator, to: Route) -> bool {
        &&& new.current.id == old.next_id
        &&& new.current.route == to
        &&& new.current.tree is None
        &&& new.next_id == old.next_id + 1
    }

    /// The relation between the navigator before and after the main menu's
    /// handler took one click.
    pub open spec fn main_menu_handled(old: Navigator, ev: ClickEvent, new: Navigator) -> bool {
        match old.main_menu_action(ev) {
            Action::Navigate(to) => Self::navigated(old, new, to),
            _ => new == old,
        }
    }

    /// The relation between the navigator before and after one run of the
    /// main menu's builder: a main menu entity without a tree gets one, and
    /// nothing else changes.
    pub open spec fn main_menu_built(old: Navigator, new: Navigator) -> bool {
        if old.current.route == Route::MainMenu && old.current.tree is None {
            &&& new.current.id == old.current.id
            &&& new.current.route == Route::MainMenu
            &&& new.next_id == old.next_id
            &&& new.current.tree matches Some(t) && t@ == main_menu_nodes(all_buttons()) && t.wf()
        } else {
            new == old
        }
    }

    /// The navigator after the main menu's handler took one click.
    pub open spec fn main_menu_step(self, ev: ClickEvent) -> Navigator {
        match self.main_menu_action(ev) {
            Action::Navigate(to) => Navigator {
                current: RouteEntity { id: self.next_id, route: to, tree: None },
                next_id: (self.next_id + 1) as u64,
            },
            _ => self,
        }
    }

    /// The navigator after the main menu's handler took `evs` in order.
    pub open spec fn main_menu_run(self, evs: Seq<ClickEvent>) -> Navigator
        decreases evs.len(),
    {
        if evs.len() == 0 {
            self
        } else {
            self.main_menu_run(evs.drop_last()).main_menu_step(evs.last())
        }
    }

    /// The actions that the main menu's handler decides on for `evs`, in order.
    pub open spec fn main_menu_actions(self, evs: Seq<ClickEvent>) -> Seq<Action>
        decreases evs.len(),
    {
        if evs.len() == 0 {
            Seq::empty()
        } else {
            self.main_menu_actions(evs.drop_last()).push(
                self.main_menu_run(evs.drop_last()).main_menu_action(evs.last()),
            )
        }
    }

    /// Starts with the intro route as the only live route.
    pub fn new() -> (nav: Navigator)
        ensures
            nav.wf(),
            nav.current.route == Route::Intro,
            nav.current.tree is None,
            nav.current.id == 0,
            nav.next_id == 1,
            nav.live_routes().len() == 1,
    {
        Navigator { current: RouteEntity { id: 0, route: Route::Intro, tree: None }, next_id: 1 }
    }

    pub fn active_route(&self) -> (r: Route)
        ensures
            r == self.current.route,
    {
        self.current.route
    }

    pub fn active_id(&self) -> (id: u64)
        ensures
            id == self.current.id,
    {
        self.current.id
    }

    /// Number of nodes built under the active route (0 while unbuilt).
    pub fn node_count(&self) -> (n: usize)
        ensures
            n == match self.current.tree {
                Some(t) => t@.len(),
                None => 0,
            },
    {
        match &self.current.tree {
            Some(t) => t.len(),
            None => 0,
        }
    }

    /// Despawns the active route with its whole tree and spawns a fresh
    /// entity for `to`, in one step.
    pub fn navigate(&mut self, to: Route)
        requires
            old(self).wf(),
            old(self).next_id < u64::MAX,
        ensures
            final(self).wf(),
            Self::navigated(*old(self), *final(self), to),
    {
        let id = self.next_id;
        self.current = RouteEntity { id, route: to, tree: None };
        self.next_id = id + 1;
    }

    /// The tag of the node that `r` addresses in the live tree, if any.
    pub fn tag_of(&self, r: NodeRef) -> (t: Option<MainMenuButton>)
        ensures
            t == self.tag_at(r),
    {
        match &self.current.tree {
            Some(tree) => {
                if r.route == self.current.id && r.node < tree.nodes.len() {
                    assert(tree@[r.node as int] == tree.nodes@[r.node as int]@);
                    match tree.nodes[r.node].content {
                        Content::MainButton(b) => Some(b),
                        _ => None,
                    }
                } else {
                    None
                }
            },
            None => None,
        }
    }

    /// The main menu's interaction handler for one click: a navigation
    /// button replaces the active route, the quit button yields
    /// [`Action::Exit`] for the caller to carry out, and anything else
    /// changes nothing.
    pub fn handle_main_menu_click(&mut self, ev: ClickEvent) -> (a: Action)
        requires
            old(self).wf(),
            old(self).next_id < u64::MAX,
        ensures
            final(self).wf(),
            a == old(self).main_menu_action(ev),
            Self::main_menu_handled(*old(self), ev, *final(self)),
    {
        let a = match self.tag_of(ev.target) {
            Some(b) => b.action(),
            None => Action::Nothing,
        };
        if let Action::Navigate(to) = a {
            self.navigate(to);
        }
        a
    }

    /// The main menu's handler over all clicks of a frame, in order. A click
    /// on a node of a route that an earlier click of the frame tore down
    /// finds nothing and is ignored.
    pub fn handle_main_menu_clicks(&mut self, events: &Vec<ClickEvent>) -> (actions: Vec<Action>)
        requires
            old(self).wf(),
            old(self).next_id + events@.len() < u64::MAX,
        ensures
            final(self).wf(),
            *final(self) == old(self).main_menu_run(events@),
            actions@ == old(self).main_menu_actions(events@),
    {
        let mut actions: Vec<Action> = Vec::new();
        let mut i: usize = 0;
        while i < events.len()
            invariant
                i <= events@.len(),
                self.wf(),
                self.next_id <= old(self).next_id + i,
                old(self).next_id + events@.len() < u64::MAX,
                *self == old(self).main_menu_run(events@.take(i as int)),
                actions@ == old(self).main_menu_actions(events@.take(i as int)),
            decreases events@.len() - i,
        {
            let ghost before = *self;
            let ev = events[i];
            let a = self.handle_main_menu_click(ev);
            actions.push(a);
            proof {
                let t = events@.take(i + 1);
                assert(t.drop_last() =~= events@.take(i as int));
                assert(t.last() == ev);
                if let Action::Navigate(to) = a {
                    assert(*self == before.main_menu_step(ev));
                }
            }
            i += 1;
        }
        assert(events@.take(i as int) =~= events@);
        actions
    }

    /// The main menu's builder: builds the tree of a newly activated main
    /// menu, and does nothing on a route that is built or is another screen.
    /// Returns whether it built.
    pub fn run_main_menu_builder(&mut self) -> (built: bool)
        requires
            old(self).wf(),
        ensures
            final(self).wf(),
            built == (old(self).current.route == Route::MainMenu && old(self).current.tree is None),
            Self::main_menu_built(*old(self), *final(self)),
    {
        if self.current.route == Route::MainMenu && self.current.tree.is_none() {
            let buttons = main_menu_buttons();
            proof {
                assert(buttons@.no_duplicates()) by {
                    assert forall|i: int, j: int| 0 <= i < buttons@.len() && 0 <= j < buttons@.len() && i != j
                        implies buttons@[i] != buttons@[j] by {}
                }
            }
            self.current.tree = Some(build_route(&buttons));
            true
        } else {
            false
        }
    }
}

/// Exactly one route is live in every state of the navigator.
pub proof fn lemma_single_live_route(nav: Navigator)
    ensures
        nav.live_routes().len() == 1,
{
}

/// Running the main menu's builder a second time changes nothing: the tree
/// and its node count stay as the first run left them.
pub proof fn lemma_build_once(a: Navigator, b: Navigator, c: Navigator)
    requires
        Navigator::main_menu_built(a, b),
        Navigator::main_menu_built(b, c),
    ensures
        c == b,
{
}

/// After a navigation, no node of the old route is reachable, the new route
/// is the one live route, and its id is fresh.
pub proof fn lemma_transition_atomic(a: Navigator, ev: ClickEvent, b: Navigator, to: Route)
    requires
        a.wf(),
        a.main_menu_action(ev) == Action::Navigate(to),
        Navigator::main_menu_handled(a, ev, b),
    ensures
        b.current.route == to,
        b.current.id != a.current.id,
        b.live_routes().len() == 1,
        forall|r: NodeRef| r.route == a.current.id ==> b.node_at(r) is None,
{
}

/// A click on the quit button asks for termination and leaves the active
/// route as it was, whichever route that is.
pub proof fn lemma_quit_exits(a: Navigator, ev: ClickEvent)
    requires
        a.tag_at(ev.target) == Some(MainMenuButton::QuitGame),
    ensures
        a.main_menu_action(ev) == Action::Exit,
        a.main_menu_step(ev) == a,
{
}

/// A click on a node without a main-menu tag, or on a node that is not in
/// the live tree, triggers nothing in the main menu's handler.
pub proof fn lemma_foreign_click_ignored(a: Navigator, ev: ClickEvent, b: Navigator)
    requires
        a.tag_at(ev.target) is None,
        Navigator::main_menu_handled(a, ev, b),
    ensures
        a.main_menu_action(ev) == Action::Nothing,
        b == a,
{
}

} // verus!
