use pixfetch::procwalk::{find_terminal, ProcEntry};

fn entry(pid: u32, parent: Option<u32>, name: &str) -> ProcEntry {
    ProcEntry {
        pid,
        parent,
        name: name.to_string(),
    }
}

#[test]
fn grandparent_is_the_terminal() {
    let table = vec![
        entry(10, Some(5), "pixfetch"),
        entry(5, Some(3), "zsh"),
        entry(3, Some(1), "alacritty"),
        entry(1, None, "init"),
    ];
    assert_eq!(find_terminal(&table, 10), Some("alacritty".to_string()));
}

#[test]
fn missing_ancestors_give_nothing() {
    let table = vec![entry(10, Some(5), "pixfetch")];
    assert_eq!(find_terminal(&table, 10), None);
    assert_eq!(find_terminal(&table, 99), None);
    let rootless = vec![entry(10, None, "pixfetch")];
    assert_eq!(find_terminal(&rootless, 10), None);
}

#[test]
fn electron_under_code_is_vscode() {
    let table = vec![
        entry(10, Some(5), "pixfetch"),
        entry(5, Some(3), "bash"),
        entry(3, Some(2), "electron"),
        entry(2, Some(1), "code-insiders"),
        entry(1, None, "init"),
    ];
    assert_eq!(find_terminal(&table, 10), Some("vscode".to_string()));
}

#[test]
fn electron_under_code_two_up_is_vscode() {
    let table = vec![
        entry(10, Some(5), "pixfetch"),
        entry(5, Some(3), "bash"),
        entry(3, Some(2), "electron"),
        entry(2, Some(1), "node"),
        entry(1, None, "vscode-server"),
    ];
    assert_eq!(find_terminal(&table, 10), Some("vscode".to_string()));
}

#[test]
fn electron_without_code_ancestor_stays_electron() {
    let table = vec![
        entry(10, Some(5), "pixfetch"),
        entry(5, Some(3), "bash"),
        entry(3, Some(2), "electron"),
        entry(2, Some(1), "node"),
        entry(1, None, "init"),
    ];
    assert_eq!(find_terminal(&table, 10), Some("electron".to_string()));
}
