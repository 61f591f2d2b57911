//! Navigation state machine: the current location, bounded back/forward
//! history stacks, the current item snapshot, and a single optional selection
//! index. All commands are pure state transitions over plain values; listing
//! a location is done outside and handed in through [`State::apply_listing`].

use vstd::prelude::*;

use crate::location::{lemma_parent_shorter, parent_of, parent_of_spec};

verus! {

/// What kind of entry an item is.
#[derive(Debug, Clone, Copy, PartialEq, Eq, Structural)]
pub enum NodeKind {
    File,
    Directory,
    Unknown,
}

impl NodeKind {
    /// Classifies an entry from its two type flags, directories first.
    pub fn from_flags(is_dir: bool, is_file: bool) -> (r: NodeKind)
        ensures
            r == (if is_dir {
                NodeKind::Directory
            } else if is_file {
                NodeKind::File
            } else {
                NodeKind::Unknown
            }),
    {
        if is_dir {
            NodeKind::Directory
        } else if is_file {
            NodeKind::File
        } else {
            NodeKind::Unknown
        }
    }
}

/// One entry of a location's listing: an immutable snapshot record.
/// Timestamps are seconds since the Unix epoch.
#[derive(Debug, PartialEq, Eq)]
pub struct Node {
    pub path: String,
    pub name: String,
    pub kind: NodeKind,
    pub size: u64,
    pub created: i64,
    pub modified: i64,
}

impl Clone for Node {
    /// A field-for-field copy.
    fn clone(&self) -> (r: Node)
        ensures
            r == *self,
    {
        Node {
            path: self.path.clone(),
            name: self.name.clone(),
            kind: self.kind,
            size: self.size,
            created: self.created,
            modified: self.modified,
        }
    }
}

/// Mathematical model of a [`Node`].
pub ghost struct NodeView {
    pub path: Seq<char>,
    pub name: Seq<char>,
    pub kind: NodeKind,
    pub size: u64,
    pub created: i64,
    pub modified: i64,
}

impl View for Node {
    type V = NodeView;

    open spec fn view(&self) -> NodeView {
        NodeView {
            path: self.path@,
            name: self.name@,
            kind: self.kind,
            size: self.size,
            created: self.created,
            modified: self.modified,
        }
    }
}

/// Why a location could not be listed. The failure is swallowed at the
/// navigation layer: the listing degrades to empty (see [`State::apply_listing`]).
#[derive(Debug, Clone, PartialEq, Eq)]
pub enum IoFailure {
    NotFound,
    PermissionDenied,
    Other(String),
}

/// Emitted (returned) by a command when the current location changed.
#[derive(Debug, Clone, Copy, PartialEq, Eq, Structural)]
pub struct PathChange;

/// Emitted (returned) by a command when the selection moved.
#[derive(Debug, Clone, Copy, PartialEq, Eq, Structural)]
pub struct FocusSelection;

/// Mathematical model of the navigation state.
#[verifier::ext_equal]
pub ghost struct NavView {
    pub current: Seq<char>,
    pub backward: Seq<Seq<char>>,
    pub forward: Seq<Seq<char>>,
    pub items: Seq<NodeView>,
    pub selection: Option<usize>,
}

/// Navigating to a new location pushes the old one onto the backward stack,
/// clears the forward stack and the selection; navigating to the current
/// location is a no-op.
pub open spec fn navigate_t(s: NavView, loc: Seq<char>) -> NavView {
    if loc == s.current {
        s
    } else {
        NavView {
            current: loc,
            backward: s.backward.push(s.current),
            forward: Seq::empty(),
            items: s.items,
            selection: None,
        }
    }
}

/// Going back pops the backward stack into `current`, pushes the old
/// `current` onto the forward stack and clears the selection; a no-op when
/// the backward stack is empty.
pub open spec fn go_back_t(s: NavView) -> NavView {
    if s.backward.len() == 0 {
        s
    } else {
        NavView {
            current: s.backward.last(),
            backward: s.backward.drop_last(),
            forward: s.forward.push(s.current),
            items: s.items,
            selection: None,
        }
    }
}

/// Going forward mirrors going back, except that it keeps the selection
/// (that asymmetry is deliberate; stale indices are cleared when the new
/// listing arrives, see [`State::apply_listing`]).
pub open spec fn go_forward_t(s: NavView) -> NavView {
    if s.forward.len() == 0 {
        s
    } else {
        NavView {
            current: s.forward.last(),
            backward: s.backward.push(s.current),
            forward: s.forward.drop_last(),
            items: s.items,
            selection: s.selection,
        }
    }
}

/// Going up navigates to the parent location; a no-op at the root.
pub open spec fn go_up_t(s: NavView) -> NavView {
    match parent_of_spec(s.current) {
        Some(p) => navigate_t(s, p),
        None => s,
    }
}

/// Moving the selection down: no selection selects the first item; at the
/// last item the selection stays; an empty listing leaves it untouched.
pub open spec fn next_selection_t(sel: Option<usize>, n: nat) -> Option<usize> {
    if n == 0 {
        sel
    } else {
        match sel {
            None => Some(0usize),
            Some(i) => if i + 1 < n {
                Some((i + 1) as usize)
            } else {
                Some(i)
            },
        }
    }
}

/// Moving the selection up: no selection selects the first item; at the
/// first item the selection stays; an empty listing leaves it untouched.
pub open spec fn back_selection_t(sel: Option<usize>, n: nat) -> Option<usize> {
    if n == 0 {
        sel
    } else {
        match sel {
            None => Some(0usize),
            Some(i) => if i == 0 {
                Some(0usize)
            } else {
                Some((i - 1) as usize)
            },
        }
    }
}

/// After navigating to a new location, one step back returns to the location
/// that was current before the navigation, and the new location is the whole
/// forward stack; the backward stack is as before.
pub proof fn lemma_navigate_then_back(s: NavView, x: Seq<char>)
    requires
        x != s.current,
    ensures
        go_back_t(navigate_t(s, x)).current == s.current,
        go_back_t(navigate_t(s, x)).forward =~= seq![x],
        go_back_t(navigate_t(s, x)).backward =~= s.backward,
{
    assert(navigate_t(s, x).backward.last() == s.current);
    assert(navigate_t(s, x).backward.drop_last() =~= s.backward);
    assert(Seq::<Seq<char>>::empty().push(x) =~= seq![x]);
}

/// Going back is a no-op exactly when the backward stack is empty.
pub proof fn lemma_go_back_noop_iff_empty(s: NavView)
    ensures
        go_back_t(s) == s <==> s.backward.len() == 0,
{
    if s.backward.len() > 0 {
        assert(go_back_t(s).forward.len() == s.forward.len() + 1);
    }
}

/// Going forward is a no-op exactly when the forward stack is empty.
pub proof fn lemma_go_forward_noop_iff_empty(s: NavView)
    ensures
        go_forward_t(s) == s <==> s.forward.len() == 0,
{
    if s.forward.len() > 0 {
        assert(go_forward_t(s).backward.len() == s.backward.len() + 1);
    }
}

/// Every transition that leaves the current location clears the selection:
/// navigating to a new location, going back, and going up. Going forward is
/// the deliberate exception: it keeps the selection.
pub proof fn lemma_transitions_clear_selection(s: NavView, x: Seq<char>)
    ensures
        x != s.current ==> navigate_t(s, x).selection is None,
        s.backward.len() > 0 ==> go_back_t(s).selection is None,
        parent_of_spec(s.current) is Some ==> go_up_t(s).selection is None,
        go_forward_t(s).selection == s.selection,
{
    lemma_parent_shorter(s.current);
}

/// Selection movement stays inside `[0, n - 1]` and never wraps: at the last
/// item moving down stands still, at the first item moving up stands still,
/// and an empty listing is never given a selection.
pub proof fn lemma_selection_in_bounds(sel: Option<usize>, n: nat)
    requires
        n <= usize::MAX,
        match sel {
            Some(i) => i < n,
            None => true,
        },
    ensures
        match next_selection_t(sel, n) {
            Some(i) => n > 0 && i < n,
            None => sel is None,
        },
        match back_selection_t(sel, n) {
            Some(i) => n > 0 && i < n,
            None => sel is None,
        },
        n > 0 ==> next_selection_t(Some((n - 1) as usize), n) == Some((n - 1) as usize),
        n > 0 ==> back_selection_t(Some(0usize), n) == Some(0usize),
{
}

/// The navigation state: current location, history stacks, item snapshot
/// and selection. The one owner of this data; everything else reads it.
pub struct State {
    nodes: Vec<Node>,
    backward: Vec<String>,
    forward: Vec<String>,
    current: String,
    selected: Option<usize>,
}

impl View for State {
    type V = NavView;

    closed spec fn view(&self) -> NavView {
        NavView {
            current: self.current@,
            backward: self.backward@.map_values(|p: String| p@),
            forward: self.forward@.map_values(|p: String| p@),
            items: self.nodes@.map_values(|n: Node| n@),
            selection: self.selected,
        }
    }
}

impl State {
    /// The selection is `None` or a valid index into the items.
    pub open spec fn wf(&self) -> bool {
        match self@.selection {
            Some(i) => i < self@.items.len(),
            None => true,
        }
    }

    /// A fresh state at `initial`, with empty history, no items, no selection.
    pub fn init(initial: String) -> (s: State)
        ensures
            s@.current == initial@,
            s@.backward.len() == 0,
            s@.forward.len() == 0,
            s@.items.len() == 0,
            s@.selection is None,
            s.wf(),
    {
        let s = State {
            nodes: Vec::new(),
            backward: Vec::new(),
            forward: Vec::new(),
            current: initial,
            selected: None,
        };
        proof {
            assert(s@.backward =~= Seq::<Seq<char>>::empty());
            assert(s@.forward =~= Seq::<Seq<char>>::empty());
            assert(s@.items =~= Seq::<NodeView>::empty());
        }
        s
    }

    /// The current location.
    pub fn path(&self) -> (r: &String)
        ensures
            r@ == self@.current,
    {
        &self.current
    }

    /// The current item snapshot, in listing order.
    pub fn nodes(&self) -> (r: &Vec<Node>)
        ensures
            r@.len() == self@.items.len(),
            forall|i: int| 0 <= i < r@.len() ==> r@[i]@ == self@.items[i],
    {
        &self.nodes
    }

    /// The selected index, if any.
    pub fn selected(&self) -> (r: Option<usize>)
        ensures
            r == self@.selection,
    {
        self.selected
    }

    /// Navigate to `path`: a no-op if `path` is already current, else the
    /// `navigate_t` transition. Returns the change notification if the
    /// location changed; the caller then reloads the listing and hands it to
    /// [`State::apply_listing`].
    pub fn set_path(&mut self, path: String) -> (r: Option<PathChange>)
        requires
            old(self).wf(),
        ensures
            final(self)@ == navigate_t(old(self)@, path@),
            final(self).wf(),
            r is Some <==> path@ != old(self)@.current,
    {
        if self.current == path {
            None
        } else {
            let previous = self.current.clone();
            self.backward.push(previous);
            self.forward.clear();
            self.current = path;
            self.selected = None;
            proof {
                assert(self@.backward =~= old(self)@.backward.push(old(self)@.current));
                assert(self@.forward =~= Seq::<Seq<char>>::empty());
                assert(self@ =~= navigate_t(old(self)@, path@));
            }
            Some(PathChange)
        }
    }

    /// Whether the backward stack is non-empty.
    pub fn can_go_back(&self) -> (r: bool)
        ensures
            r == (self@.backward.len() > 0),
    {
        self.backward.len() > 0
    }

    /// The `go_back_t` transition. Returns the change notification if a
    /// location was popped; the caller then reloads the listing.
    pub fn go_back(&mut self) -> (r: Option<PathChange>)
        requires
            old(self).wf(),
        ensures
            final(self)@ == go_back_t(old(self)@),
            final(self).wf(),
            r is Some <==> old(self)@.backward.len() > 0,
    {
        match self.backward.pop() {
            Some(previous) => {
                let here = self.current.clone();
                self.forward.push(here);
                self.current = previous;
                self.selected = None;
                proof {
                    assert(self@.backward =~= old(self)@.backward.drop_last());
                    assert(self@.forward =~= old(self)@.forward.push(old(self)@.current));
                    assert(self@ =~= go_back_t(old(self)@));
                }
                Some(PathChange)
            },
            None => {
                proof {
                    assert(old(self)@.backward.len() == 0);
                }
                None
            },
        }
    }

    /// Whether the forward stack is non-empty.
    pub fn can_go_forward(&self) -> (r: bool)
        ensures
            r == (self@.forward.len() > 0),
    {
        self.forward.len() > 0
    }

    /// The `go_forward_t` transition. Returns the change notification if a
    /// location was popped; the caller then reloads the listing.
    pub fn go_forward(&mut self) -> (r: Option<PathChange>)
        requires
            old(self).wf(),
        ensures
            final(self)@ == go_forward_t(old(self)@),
            final(self).wf(),
            r is Some <==> old(self)@.forward.len() > 0,
    {
        match self.forward.pop() {
            Some(previous) => {
                let here = self.current.clone();
                self.backward.push(here);
                self.current = previous;
                proof {
                    assert(self@.forward =~= old(self)@.forward.drop_last());
                    assert(self@.backward =~= old(self)@.backward.push(old(self)@.current));
                    assert(self@ =~= go_forward_t(old(self)@));
                }
                Some(PathChange)
            },
            None => {
                proof {
                    assert(old(self)@.forward.len() == 0);
                }
                None
            },
        }
    }

    /// Whether the current location has a parent.
    pub fn can_go_up(&self) -> (r: bool)
        ensures
            r == (parent_of_spec(self@.current) is Some),
    {
        parent_of(self.current.as_str()).is_some()
    }

    /// The `go_up_t` transition: navigate to the parent location, a no-op at
    /// the root. Returns the change notification if the location changed.
    pub fn go_up(&mut self) -> (r: Option<PathChange>)
        requires
            old(self).wf(),
        ensures
            final(self)@ == go_up_t(old(self)@),
            final(self).wf(),
            r is Some <==> parent_of_spec(old(self)@.current) is Some,
    {
        match parent_of(self.current.as_str()) {
            Some(parent) => {
                proof {
                    lemma_parent_shorter(old(self)@.current);
                }
                let r = self.set_path(parent);
                r
            },
            None => None,
        }
    }

    /// Move the selection one item down, per `next_selection_t`. Returns the
    /// focus notification exactly when the selection changed.
    pub fn next_selected(&mut self) -> (r: Option<FocusSelection>)
        requires
            old(self).wf(),
        ensures
            final(self)@ == (NavView {
                selection: next_selection_t(old(self)@.selection, old(self)@.items.len()),
                ..old(self)@
            }),
            final(self).wf(),
            r is Some <==> final(self)@.selection != old(self)@.selection,
    {
        let n = self.nodes.len();
        if n == 0 {
            return None;
        }
        match self.selected {
            None => {
                self.selected = Some(0);
                Some(FocusSelection)
            },
            Some(i) => {
                if i + 1 < n {
                    self.selected = Some(i + 1);
                    Some(FocusSelection)
                } else {
                    None
                }
            },
        }
    }

    /// Move the selection one item up, per `back_selection_t`. Returns the
    /// focus notification exactly when the selection changed.
    pub fn back_selected(&mut self) -> (r: Option<FocusSelection>)
        requires
            old(self).wf(),
        ensures
            final(self)@ == (NavView {
                selection: back_selection_t(old(self)@.selection, old(self)@.items.len()),
                ..old(self)@
            }),
            final(self).wf(),
            r is Some <==> final(self)@.selection != old(self)@.selection,
    {
        let n = self.nodes.len();
        if n == 0 {
            return None;
        }
        match self.selected {
            None => {
                self.selected = Some(0);
                Some(FocusSelection)
            },
            Some(i) => {
                if i > 0 {
                    self.selected = Some(i - 1);
                    Some(FocusSelection)
                } else {
                    None
                }
            },
        }
    }

    /// Clear the selection.
    pub fn clear_selection(&mut self)
        ensures
            final(self)@ == (NavView { selection: None, ..old(self)@ }),
            final(self).wf(),
    {
        self.selected = None;
    }

    /// Install the listing loaded for the current location. A failed load
    /// degrades to an empty listing; the failure itself is not propagated.
    /// A selection that no longer fits the new listing is cleared (this is
    /// what keeps a selection carried over a forward navigation honest).
    pub fn apply_listing(&mut self, listing: Result<Vec<Node>, IoFailure>)
        requires
            old(self).wf(),
        ensures
            final(self)@.current == old(self)@.current,
            final(self)@.backward == old(self)@.backward,
            final(self)@.forward == old(self)@.forward,
            final(self)@.items == (match listing {
                Ok(v) => v@.map_values(|n: Node| n@),
                Err(_) => Seq::<NodeView>::empty(),
            }),
            final(self)@.selection == (match old(self)@.selection {
                Some(i) => if i < final(self)@.items.len() {
                    Some(i)
                } else {
                    None
                },
                None => None,
            }),
            final(self).wf(),
    {
        match listing {
            Ok(v) => {
                self.nodes = v;
            },
            Err(_) => {
                self.nodes = Vec::new();
                proof {
                    assert(self.nodes@.map_values(|n: Node| n@) =~= Seq::<
                        NodeView,
                    >::empty());
                }
            },
        }
        match self.selected {
            Some(i) => {
                if i >= self.nodes.len() {
                    self.selected = None;
                }
            },
            None => {},
        }
    }

    /// Install a listing that was loaded for `location` — but only if
    /// `location` is still current. A load overtaken by a later navigation
    /// is discarded (the stale-response guard an asynchronous loader needs).
    /// Returns whether the listing was applied.
    pub fn apply_listing_for(
        &mut self,
        location: &String,
        listing: Result<Vec<Node>, IoFailure>,
    ) -> (r: bool)
        requires
            old(self).wf(),
        ensures
            r == (location@ == old(self)@.current),
            !r ==> final(self)@ == old(self)@,
            r ==> final(self)@.current == old(self)@.current,
            r ==> final(self)@.backward == old(self)@.backward,
            r ==> final(self)@.forward == old(self)@.forward,
            r ==> final(self)@.items == (match listing {
                Ok(v) => v@.map_values(|n: Node| n@),
                Err(_) => Seq::<NodeView>::empty(),
            }),
            r ==> final(self)@.selection == (match old(self)@.selection {
                Some(i) => if i < final(self)@.items.len() {
                    Some(i)
                } else {
                    None
                },
                None => None,
            }),
            final(self).wf(),
    {
        if self.current == *location {
            self.apply_listing(listing);
            true
        } else {
            false
        }
    }
}

} // verus!
