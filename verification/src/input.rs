//! Keyboard dispatch and the open-action decision: the input layer turns
//! raw key events into [`Key`] values and performs the returned command;
//! which command a key means is decided here, in one verified table.

use vstd::prelude::*;

use crate::nav::{navigate_t, NavView, Node, NodeKind, PathChange, State};

verus! {

/// The keys the browser reacts to; anything else is `Other`.
#[derive(Debug, Clone, Copy, PartialEq, Eq, Structural)]
pub enum Key {
    BracketLeft,
    BracketRight,
    ArrowUp,
    ArrowDown,
    LetterO,
    Escape,
    Enter,
    Space,
    Other,
}

/// What a key press asks the controllers to do.
#[derive(Debug, Clone, Copy, PartialEq, Eq, Structural)]
pub enum KeyCommand {
    GoBack,
    GoForward,
    GoUp,
    OpenSelection,
    ForceOpenSelection,
    SelectPrevious,
    SelectNext,
    ClearSelection,
    TogglePreview,
    NoCommand,
}

/// The key table: `modifier` is the platform or shift modifier. Bracket
/// keys travel the history, arrows move the selection (or, with the
/// modifier, go up / open), `o` force-opens, escape clears the selection,
/// space toggles the quick preview; enter is reserved.
pub open spec fn key_action_spec(key: Key, modifier: bool) -> KeyCommand {
    match key {
        Key::BracketLeft => if modifier {
            KeyCommand::GoBack
        } else {
            KeyCommand::NoCommand
        },
        Key::BracketRight => if modifier {
            KeyCommand::GoForward
        } else {
            KeyCommand::NoCommand
        },
        Key::ArrowUp => if modifier {
            KeyCommand::GoUp
        } else {
            KeyCommand::SelectPrevious
        },
        Key::ArrowDown => if modifier {
            KeyCommand::OpenSelection
        } else {
            KeyCommand::SelectNext
        },
        Key::LetterO => if modifier {
            KeyCommand::ForceOpenSelection
        } else {
            KeyCommand::NoCommand
        },
        Key::Escape => KeyCommand::ClearSelection,
        Key::Enter => KeyCommand::NoCommand,
        Key::Space => KeyCommand::TogglePreview,
        Key::Other => KeyCommand::NoCommand,
    }
}

/// The command a key press maps to, per `key_action_spec`.
pub fn key_action(key: Key, modifier: bool) -> (r: KeyCommand)
    ensures
        r == key_action_spec(key, modifier),
{
    match key {
        Key::BracketLeft => if modifier {
            KeyCommand::GoBack
        } else {
            KeyCommand::NoCommand
        },
        Key::BracketRight => if modifier {
            KeyCommand::GoForward
        } else {
            KeyCommand::NoCommand
        },
        Key::ArrowUp => if modifier {
            KeyCommand::GoUp
        } else {
            KeyCommand::SelectPrevious
        },
        Key::ArrowDown => if modifier {
            KeyCommand::OpenSelection
        } else {
            KeyCommand::SelectNext
        },
        Key::LetterO => if modifier {
            KeyCommand::ForceOpenSelection
        } else {
            KeyCommand::NoCommand
        },
        Key::Escape => KeyCommand::ClearSelection,
        Key::Enter => KeyCommand::NoCommand,
        Key::Space => KeyCommand::TogglePreview,
        Key::Other => KeyCommand::NoCommand,
    }
}

/// What opening a node led to: a navigation into a directory, a request to
/// hand the path to the host environment, or nothing.
#[derive(Debug, Clone, PartialEq, Eq)]
pub enum OpenAction {
    OpenedLocation(Option<PathChange>),
    OpenExternally(String),
    Ignored,
}

/// Open `node`: a directory is navigated into unless `force` asks for the
/// host environment; a file (or a forced directory) is handed out as an
/// `OpenExternally` request for the caller to perform; an unknown kind is
/// ignored. The navigation itself happens here; only the external launch is
/// the caller's.
pub fn open_node(state: &mut State, node: &Node, force: bool) -> (r: OpenAction)
    requires
        old(state).wf(),
    ensures
        final(state).wf(),
        node.kind == NodeKind::Directory && !force ==> final(state)@ == navigate_t(
            old(state)@,
            node@.path,
        ) && r is OpenedLocation,
        node.kind == NodeKind::File || (node.kind == NodeKind::Directory && force)
            ==> final(state)@ == old(state)@ && (r matches OpenAction::OpenExternally(p) && p@
            == node@.path),
        node.kind == NodeKind::Unknown ==> final(state)@ == old(state)@ && r is Ignored,
{
    match node.kind {
        NodeKind::Directory => {
            if !force {
                let changed = state.set_path(node.path.clone());
                OpenAction::OpenedLocation(changed)
            } else {
                OpenAction::OpenExternally(node.path.clone())
            }
        },
        NodeKind::File => OpenAction::OpenExternally(node.path.clone()),
        NodeKind::Unknown => OpenAction::Ignored,
    }
}

} // verus!
