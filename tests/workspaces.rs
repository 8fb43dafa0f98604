use cosmic_panel::reconcile::{is_maximized, maximized_changes, WorkspaceInfo};

fn ws(output: u64, has_maximized: bool) -> WorkspaceInfo {
    WorkspaceInfo { output, has_maximized }
}

#[test]
fn flipped_outputs_in_order() {
    let outputs = vec![1, 2, 3];
    let before = vec![ws(1, true), ws(2, false), ws(3, false)];
    let after = vec![ws(1, false), ws(2, false), ws(3, true), ws(3, false)];
    assert_eq!(maximized_changes(&outputs, &before, &after), vec![1, 3]);
    assert!(maximized_changes(&outputs, &before, &before).is_empty());
}

#[test]
fn maximized_on_any_workspace() {
    let list = vec![ws(1, false), ws(1, true)];
    assert!(is_maximized(&list, 1));
    assert!(!is_maximized(&list, 2));
    assert!(!is_maximized(&vec![], 1));
}
