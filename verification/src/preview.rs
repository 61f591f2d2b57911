//! Quick-preview logic: which kind of preview a node gets (decided from its
//! kind and file extension), and the toggle/selection state machine behind
//! the preview overlay. Reading file contents or decoding images is the
//! renderer's business.

use vstd::prelude::*;

use crate::location::{find_last, last_index_of, lemma_last_index_of, str_eq};
use crate::nav::{Node, NodeKind, NodeView};

verus! {

/// The preview a node gets: an image, its text contents, a folder card, or
/// a placeholder for anything the previewer does not understand.
#[derive(Debug, Clone, Copy, PartialEq, Eq, Structural)]
pub enum PreviewKind {
    Image,
    Text,
    Folder,
    UnknownFile,
}

/// The extension of a path: the text after the last `.` of the last path
/// component, provided that `.` is not the component's first character
/// (a leading dot marks a hidden name, not an extension).
pub open spec fn extension_spec(path: Seq<char>) -> Option<Seq<char>> {
    let start = match last_index_of(path, '/') {
        Some(i) => i + 1,
        None => 0,
    };
    let component = path.subrange(start, path.len() as int);
    match last_index_of(component, '.') {
        Some(j) => if j > 0 {
            Some(component.subrange(j + 1, component.len() as int))
        } else {
            None
        },
        None => None,
    }
}

/// The extension of a path, per `extension_spec`.
pub fn extension_of(path: &str) -> (r: Option<String>)
    ensures
        match r {
            Some(e) => extension_spec(path@) == Some(e@),
            None => extension_spec(path@) is None,
        },
{
    let n = path.unicode_len();
    let start = match find_last(path, '/') {
        Some(i) => {
            proof {
                lemma_last_index_of(path@, '/');
            }
            i + 1
        },
        None => 0,
    };
    let component = path.substring_char(start, n);
    match find_last(component, '.') {
        Some(j) => {
            proof {
                lemma_last_index_of(component@, '.');
            }
            if j > 0 {
                Some(String::from_str(component.substring_char(j + 1, component.unicode_len())))
            } else {
                None
            }
        },
        None => None,
    }
}

/// The preview kind of a node: `png` files preview as images, `txt` files
/// as text, any other file as a placeholder; directories get the folder
/// card and unknown kinds the placeholder.
pub open spec fn preview_kind_spec(node: NodeView) -> PreviewKind {
    match node.kind {
        NodeKind::File => match extension_spec(node.path) {
            Some(e) => if e == "png"@ {
                PreviewKind::Image
            } else if e == "txt"@ {
                PreviewKind::Text
            } else {
                PreviewKind::UnknownFile
            },
            None => PreviewKind::UnknownFile,
        },
        NodeKind::Directory => PreviewKind::Folder,
        NodeKind::Unknown => PreviewKind::UnknownFile,
    }
}

/// The preview kind of a node, per `preview_kind_spec`.
pub fn preview_kind(node: &Node) -> (r: PreviewKind)
    ensures
        r == preview_kind_spec(node@),
{
    match node.kind {
        NodeKind::File => match extension_of(node.path.as_str()) {
            Some(e) => {
                if str_eq(e.as_str(), "png") {
                    PreviewKind::Image
                } else if str_eq(e.as_str(), "txt") {
                    PreviewKind::Text
                } else {
                    PreviewKind::UnknownFile
                }
            },
            None => PreviewKind::UnknownFile,
        },
        NodeKind::Directory => PreviewKind::Folder,
        NodeKind::Unknown => PreviewKind::UnknownFile,
    }
}

/// Model of the quick-preview overlay state.
#[verifier::ext_equal]
pub ghost struct QuickPreviewView {
    pub node: Option<NodeView>,
    pub toggle: bool,
}

/// The quick-preview overlay: it mirrors the selected node and an on/off
/// toggle, and decides what (if anything) to show.
pub struct QuickPreview {
    node: Option<Node>,
    toggle: bool,
}

impl View for QuickPreview {
    type V = QuickPreviewView;

    closed spec fn view(&self) -> QuickPreviewView {
        QuickPreviewView {
            node: match self.node {
                Some(n) => Some(n@),
                None => None,
            },
            toggle: self.toggle,
        }
    }
}

impl QuickPreview {
    /// A fresh overlay: nothing mirrored, toggled off.
    pub fn init() -> (s: QuickPreview)
        ensures
            s@.node is None,
            !s@.toggle,
    {
        QuickPreview { node: None, toggle: false }
    }

    /// Mirror the node the selection points at (or `None`).
    pub fn set(&mut self, node: Option<Node>)
        ensures
            final(self)@.node == (match node {
                Some(n) => Some(n@),
                None => None,
            }),
            final(self)@.toggle == old(self)@.toggle,
    {
        self.node = node;
    }

    /// Flip the overlay on or off.
    pub fn toggle(&mut self)
        ensures
            final(self)@.toggle == !old(self)@.toggle,
            final(self)@.node == old(self)@.node,
    {
        self.toggle = !self.toggle;
    }

    /// What the overlay shows right now: nothing while toggled off; nothing
    /// if no node is mirrored — in that case the toggle also falls back off;
    /// otherwise the preview kind of the mirrored node.
    pub fn current(&mut self) -> (r: Option<PreviewKind>)
        ensures
            !old(self)@.toggle ==> r is None && final(self)@ == old(self)@,
            old(self)@.toggle && old(self)@.node is None ==> r is None && final(self)@ == (
            QuickPreviewView { toggle: false, ..old(self)@ }),
            match old(self)@.node {
                Some(n) => old(self)@.toggle ==> r == Some(preview_kind_spec(n))
                    && final(self)@ == old(self)@,
                None => true,
            },
    {
        if !self.toggle {
            return None;
        }
        match &self.node {
            Some(n) => Some(preview_kind(n)),
            None => {
                self.toggle = false;
                None
            },
        }
    }
}

/// The (full) preview panel: only a visibility flag; its contents are the
/// renderer's.
pub struct Preview {
    visible: bool,
}

impl Preview {
    /// A fresh panel, hidden.
    pub fn init() -> (s: Preview)
        ensures
            !s.is_visible_spec(),
    {
        Preview { visible: false }
    }

    /// Whether the panel is shown.
    pub closed spec fn is_visible_spec(&self) -> bool {
        self.visible
    }

    /// Show the panel.
    pub fn show(&mut self)
        ensures
            final(self).is_visible_spec(),
    {
        self.visible = true;
    }

    /// Whether the panel is shown.
    pub fn is_visible(&self) -> (r: bool)
        ensures
            r == self.is_visible_spec(),
    {
        self.visible
    }
}

} // verus!
