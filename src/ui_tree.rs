use vstd::prelude::*;

use crate::main_menu::MainMenuButton;

verus! {

/// The point of a window node that its position refers to.
#[derive(Clone, Copy, Debug, PartialEq, Eq, Structural)]
pub enum Anchor {
    TopLeft,
    TopCenter,
}

/// How a solid node fills the space its parent gives it.
#[derive(Clone, Copy, Debug, PartialEq, Eq, Structural)]
pub enum Scaling {
    Fit,
    Fill,
}

/// Placement of a node inside its parent.
///
/// Window extents and positions are percentages of the parent. A solid node
/// keeps the aspect ratio `width : height`; `align_x` runs from -100 (left)
/// to 100 (right).
#[derive(Clone, Copy, Debug, PartialEq, Eq, Structural)]
pub enum Layout {
    WindowFull,
    Window { x: u32, y: u32, width: u32, height: u32, anchor: Anchor },
    Solid { width: u32, height: u32, align_x: i32, scaling: Scaling },
}

/// Images that the asset cache resolves for the main menu.
#[derive(Clone, Copy, Debug, PartialEq, Eq, Structural)]
pub enum ImageAsset {
    MainBackground,
    MainBoard,
    MainLogo,
}

/// Visual or interactive content carried by a node.
#[derive(Clone, Copy, Debug, PartialEq, Eq, Structural)]
pub enum Content {
    Empty,
    Image(ImageAsset),
    /// A clickable button whose text is the label of its main-menu tag.
    MainButton(MainMenuButton),
}

/// One node of a route's UI tree. `parent` is the index of the parent node in
/// the tree, `None` for a top-level node; `name` is the last segment of the
/// node's path.
#[derive(Debug)]
pub struct UiNode {
    pub parent: Option<usize>,
    pub name: String,
    pub layout: Layout,
    pub content: Content,
}

/// The mathematical value of a [`UiNode`].
pub struct NodeView {
    pub parent: Option<usize>,
    pub name: Seq<char>,
    pub layout: Layout,
    pub content: Content,
}

pub open spec fn node_view(
    parent: Option<usize>,
    name: Seq<char>,
    layout: Layout,
    content: Content,
) -> NodeView {
    NodeView { parent, name, layout, content }
}

impl View for UiNode {
    type V = NodeView;

    open spec fn view(&self) -> NodeView {
        node_view(self.parent, self.name@, self.layout, self.content)
    }
}

/// Why a node could not be added to a tree.
#[derive(Clone, Copy, Debug, PartialEq, Eq, Structural)]
pub enum TreeError {
    /// The given parent index names no node of the tree.
    MissingParent,
    /// The parent already has a child of that name, so the path would repeat.
    DuplicatePath,
}

/// Every node's parent stands before it.
pub open spec fn parents_precede(ns: Seq<NodeView>) -> bool {
    forall|i: int| 0 <= i < ns.len() && (#[trigger] ns[i]).parent is Some ==> (ns[i].parent->0 as int) < i
}

/// No two nodes under the same parent share a name.
pub open spec fn siblings_distinct(ns: Seq<NodeView>) -> bool {
    forall|i: int, j: int|
        0 <= i < j < ns.len() && (#[trigger] ns[i]).parent == (#[trigger] ns[j]).parent ==> ns[i].name != ns[j].name
}

pub open spec fn tree_wf(ns: Seq<NodeView>) -> bool {
    parents_precede(ns) && siblings_distinct(ns)
}

/// The path of node `i`: the names from its top-level ancestor down to it.
pub open spec fn path_of(ns: Seq<NodeView>, i: int) -> Seq<Seq<char>>
    decreases i,
{
    if 0 <= i < ns.len() && ns[i].parent is Some && 0 <= ns[i].parent->0 < i {
        path_of(ns, ns[i].parent->0 as int).push(ns[i].name)
    } else {
        seq![ns[i].name]
    }
}

/// The parent of node `i` holds the path of `i` without its last segment.
pub open spec fn parent_path_registered(ns: Seq<NodeView>, i: int) -> bool {
    match ns[i].parent {
        Some(p) => 0 <= p < i && path_of(ns, p as int) == path_of(ns, i).drop_last(),
        None => path_of(ns, i).len() == 1,
    }
}

/// The path of node `i` written out, its segments joined by `/`.
pub open spec fn path_text(ns: Seq<NodeView>, i: int) -> Seq<char>
    decreases i,
{
    if 0 <= i < ns.len() && ns[i].parent is Some && 0 <= ns[i].parent->0 < i {
        path_text(ns, ns[i].parent->0 as int) + "/"@ + ns[i].name
    } else {
        ns[i].name
    }
}

pub open spec fn has_child_named(ns: Seq<NodeView>, parent: Option<usize>, name: Seq<char>) -> bool {
    exists|k: int| 0 <= k < ns.len() && (#[trigger] ns[k]).parent == parent && ns[k].name == name
}

pub open spec fn parent_valid(ns: Seq<NodeView>, parent: Option<usize>) -> bool {
    match parent {
        Some(p) => p < ns.len(),
        None => true,
    }
}

proof fn lemma_path_len(ns: Seq<NodeView>, i: int)
    ensures
        path_of(ns, i).len() >= 1,
    decreases i,
{
    if 0 <= i < ns.len() && ns[i].parent is Some && 0 <= ns[i].parent->0 < i {
        lemma_path_len(ns, ns[i].parent->0 as int);
    }
}

/// In a well-formed tree every node's parent was registered before it, and
/// holds the node's path prefix.
pub proof fn lemma_parent_before_child(ns: Seq<NodeView>, i: int)
    requires
        tree_wf(ns),
        0 <= i < ns.len(),
    ensures
        parent_path_registered(ns, i),
{
    if ns[i].parent is Some {
        let p = ns[i].parent->0 as int;
        assert(path_of(ns, i) == path_of(ns, p).push(ns[i].name));
        assert(path_of(ns, p) =~= path_of(ns, i).drop_last());
    }
}

/// In a well-formed tree no two nodes have the same path.
pub proof fn lemma_paths_unique(ns: Seq<NodeView>, i: int, j: int)
    requires
        tree_wf(ns),
        0 <= i < ns.len(),
        0 <= j < ns.len(),
        path_of(ns, i) == path_of(ns, j),
    ensures
        i == j,
    decreases i + j,
{
    let pi = path_of(ns, i);
    let pj = path_of(ns, j);
    assert(ns[i].name == pi.last());
    assert(ns[j].name == pj.last());
    match (ns[i].parent, ns[j].parent) {
        (Some(p), Some(q)) => {
            assert(path_of(ns, p as int) =~= pi.drop_last());
            assert(path_of(ns, q as int) =~= pj.drop_last());
            lemma_paths_unique(ns, p as int, q as int);
        },
        (Some(p), None) => {
            lemma_path_len(ns, p as int);
        },
        (None, Some(q)) => {
            lemma_path_len(ns, q as int);
        },
        (None, None) => {},
    }
    if i < j {
        assert(ns[i].parent == ns[j].parent);
    } else if j < i {
        assert(ns[j].parent == ns[i].parent);
    }
}

/// A named UI tree whose nodes are listed parents first.
pub struct UiTree {
    pub name: String,
    pub nodes: Vec<UiNode>,
}

impl View for UiTree {
    type V = Seq<NodeView>;

    open spec fn view(&self) -> Seq<NodeView> {
        self.nodes@.map_values(|n: UiNode| n@)
    }
}

impl UiTree {
    pub open spec fn wf(&self) -> bool {
        tree_wf(self@)
    }

    /// A tree with the given name and no nodes.
    pub fn new(name: String) -> (t: UiTree)
        ensures
            t.wf(),
            t.name@ == name@,
            t@.len() == 0,
    {
        let t = UiTree { name, nodes: Vec::new() };
        assert(t@ =~= Seq::<NodeView>::empty());
        t
    }

    pub fn len(&self) -> (n: usize)
        ensures
            n == self@.len(),
    {
        self.nodes.len()
    }

    /// The full path of node `i`, such as `Root/Solid/Board/List`.
    pub fn path_string(&self, i: usize) -> (s: String)
        requires
            self.wf(),
            i < self@.len(),
        ensures
            s@ == path_text(self@, i as int),
        decreases i,
    {
        assert(self@[i as int] == self.nodes@[i as int]@);
        match self.nodes[i].parent {
            Some(p) => {
                let mut s = self.path_string(p);
                s.append("/");
                s.append(self.nodes[i].name.as_str());
                s
            },
            None => self.nodes[i].name.clone(),
        }
    }

    /// Adds a node under `parent` (or at the top level) as the last node of
    /// the tree, unless the parent does not exist or already has a child of
    /// that name.
    pub fn add_node(&mut self, parent: Option<usize>, name: String, layout: Layout, content: Content) -> (r:
        Result<usize, TreeError>)
        requires
            old(self).wf(),
        ensures
            final(self).wf(),
            final(self).name == old(self).name,
            match r {
                Ok(i) => {
                    &&& parent_valid(old(self)@, parent)
                    &&& !has_child_named(old(self)@, parent, name@)
                    &&& i == old(self)@.len()
                    &&& final(self)@ == old(self)@.push(node_view(parent, name@, layout, content))
                },
                Err(TreeError::MissingParent) => !parent_valid(old(self)@, parent) && final(self)@ == old(self)@,
                Err(TreeError::DuplicatePath) => {
                    &&& parent_valid(old(self)@, parent)
                    &&& has_child_named(old(self)@, parent, name@)
                    &&& final(self)@ == old(self)@
                },
            },
    {
        let n = self.nodes.len();
        if let Some(p) = parent {
            if p >= n {
                return Err(TreeError::MissingParent);
            }
        }
        let mut k: usize = 0;
        let mut found = false;
        while k < n
            invariant
                n == self.nodes@.len(),
                k <= n,
                found ==> has_child_named(self@, parent, name@),
                !found ==> forall|m: int|
                    0 <= m < k ==> !((#[trigger] self@[m]).parent == parent && self@[m].name == name@),
            decreases n - k,
        {
            let same_parent = match (self.nodes[k].parent, parent) {
                (Some(a), Some(b)) => a == b,
                (None, None) => true,
                _ => false,
            };
            assert(self@[k as int] == self.nodes@[k as int]@);
            if same_parent && self.nodes[k].name == name {
                found = true;
            }
            k += 1;
        }
        if found {
            return Err(TreeError::DuplicatePath);
        }
        let ghost before = self@;
        let node = UiNode { parent, name, layout, content };
        self.nodes.push(node);
        assert(self@ =~= before.push(node@));
        Ok(n)
    }
}

} // verus!
