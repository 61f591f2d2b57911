use filenav::location::{parent_of, str_eq};
use filenav::nav::{Node, NodeKind};
use filenav::preview::{extension_of, preview_kind, Preview, PreviewKind, QuickPreview};

fn node_at(path: &str, kind: NodeKind) -> Node {
    Node {
        path: path.to_string(),
        name: path.rsplit('/').next().unwrap().to_string(),
        kind,
        size: 1,
        created: 0,
        modified: 0,
    }
}

#[test]
fn png_files_preview_as_images() {
    let n = node_at("/pics/cat.png", NodeKind::File);
    assert_eq!(preview_kind(&n), PreviewKind::Image);
}

#[test]
fn txt_files_preview_as_text() {
    let n = node_at("/notes/todo.txt", NodeKind::File);
    assert_eq!(preview_kind(&n), PreviewKind::Text);
}

#[test]
fn other_files_get_the_placeholder() {
    assert_eq!(
        preview_kind(&node_at("/bin/tool.exe", NodeKind::File)),
        PreviewKind::UnknownFile
    );
    assert_eq!(
        preview_kind(&node_at("/bin/tool", NodeKind::File)),
        PreviewKind::UnknownFile
    );
    // A leading dot marks a hidden name, not an extension.
    assert_eq!(
        preview_kind(&node_at("/home/.png", NodeKind::File)),
        PreviewKind::UnknownFile
    );
}

#[test]
fn directories_get_the_folder_card() {
    assert_eq!(
        preview_kind(&node_at("/pics", NodeKind::Directory)),
        PreviewKind::Folder
    );
    assert_eq!(
        preview_kind(&node_at("/dev/weird", NodeKind::Unknown)),
        PreviewKind::UnknownFile
    );
}

#[test]
fn extension_extraction() {
    assert_eq!(extension_of("/a/b.txt"), Some("txt".to_string()));
    assert_eq!(extension_of("archive.tar.gz"), Some("gz".to_string()));
    assert_eq!(extension_of("/a/.hidden"), None);
    assert_eq!(extension_of("/a/noext"), None);
    assert_eq!(extension_of("/a.b/noext"), None);
    assert_eq!(extension_of("trailing."), Some("".to_string()));
}

#[test]
fn quick_preview_state_machine() {
    let mut qp = QuickPreview::init();
    // Toggled off: nothing to show.
    assert_eq!(qp.current(), None);
    // Toggled on without a node: nothing, and the toggle falls back off.
    qp.toggle();
    assert_eq!(qp.current(), None);
    qp.set(Some(node_at("/pics/cat.png", NodeKind::File)));
    assert_eq!(qp.current(), None);
    // Toggled on with a node: the node's preview kind.
    qp.toggle();
    assert_eq!(qp.current(), Some(PreviewKind::Image));
    qp.set(None);
    assert_eq!(qp.current(), None);
}

#[test]
fn preview_panel_visibility() {
    let mut p = Preview::init();
    assert!(!p.is_visible());
    p.show();
    assert!(p.is_visible());
}

#[test]
fn parent_of_locations() {
    assert_eq!(parent_of("/a/b"), Some("/a".to_string()));
    assert_eq!(parent_of("/a"), Some("/".to_string()));
    assert_eq!(parent_of("/"), None);
    assert_eq!(parent_of("plain"), None);
    assert_eq!(parent_of("a/b"), Some("a".to_string()));
    assert_eq!(parent_of("/a/"), Some("/a".to_string()));
    assert_eq!(parent_of(""), None);
}

#[test]
fn string_equality_by_contents() {
    assert!(str_eq("hello", "hello"));
    assert!(!str_eq("hello", "hellO"));
    assert!(!str_eq("hello", "hell"));
    assert!(str_eq("", ""));
}
