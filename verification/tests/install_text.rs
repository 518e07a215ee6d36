//! Tests for the shell-profile text editing: block removal across the
//! tool generations, and the text an install writes.

use tr300::install::unix;
use tr300::install::windows;
use tr300::install::profile_without_block;

#[test]
fn unix_install_block_is_removed_between_markers() {
    let content = "export PATH=$PATH\n\n# TR-300 Machine Report\nalias report='tr300'\n# End TR-300\nalias ll='ls -l'\n";
    let cleaned = unix::remove_legacy_blocks(content);
    assert!(!cleaned.contains("TR-300"));
    assert!(!cleaned.contains("report"));
    assert!(cleaned.contains("export PATH=$PATH"));
    assert!(cleaned.contains("alias ll='ls -l'"));
}

#[test]
fn unix_marker_block_runs_to_next_blank_line() {
    let content = "keep1\n# TR-200 Machine Report configuration\nalias x='y'\ntr200\n\nkeep2\n";
    let cleaned = unix::remove_legacy_blocks(content);
    assert!(cleaned.contains("keep1"));
    assert!(cleaned.contains("keep2"));
    assert!(!cleaned.contains("tr200"));
    assert!(!cleaned.contains("alias x"));
}

#[test]
fn unix_if_fi_block_is_removed_with_nesting() {
    let content = "before\n# Run Machine Report only when in interactive mode\nif [ -t 0 ]; then\n  if [ -x mr ]; then\n    mr\n  fi\nfi\nafter\n";
    let cleaned = unix::remove_legacy_blocks(content);
    assert!(cleaned.contains("before"));
    assert!(cleaned.contains("after"));
    assert!(!cleaned.contains("mr"));
    assert!(!cleaned.contains("if [ -t 0 ]"));
}

#[test]
fn unix_blank_runs_collapse_and_trailing_newline_kept() {
    let content = "a\n\n\n\nb\n\n\n";
    let cleaned = unix::remove_legacy_blocks(content);
    assert_eq!(cleaned, "a\n\nb\n");
    assert_eq!(unix::remove_legacy_blocks(""), "");
}

#[test]
fn unix_install_appends_block_after_cleaning() {
    let out = unix::installed_profile("export A=1\n");
    assert!(out.starts_with("export A=1\n\n# TR-300 Machine Report\n"));
    assert!(out.ends_with("# End TR-300\n"));
    // an effectively empty profile is replaced outright
    let fresh = unix::installed_profile("  \n");
    assert!(fresh.starts_with("# TR-300 Machine Report\n"));
    // a reinstall does not duplicate the block
    let again = unix::installed_profile(&out);
    assert_eq!(again.matches("# TR-300 Machine Report").count(), 1);
}

#[test]
fn uninstall_strips_only_the_tool_block() {
    let content = "keep\n# TR-300 Machine Report\nalias report='tr300'\n# End TR-300\n";
    let stripped = profile_without_block(content, "\n").unwrap();
    assert_eq!(stripped, "keep\n");
    // nothing to remove: the caller learns there was no block
    assert!(profile_without_block("keep\n", "\n").is_none());
}

#[test]
fn windows_brace_block_is_removed() {
    let content = "keep1\r\n# TR-100 Machine Report\nif ($Host) {\n    mr\n}\nkeep2\n";
    // lines are split on the newline; the carriage return is trimmed as a blank
    let cleaned = windows::remove_legacy_blocks(content);
    assert!(cleaned.contains("keep1"));
    assert!(cleaned.contains("keep2"));
    assert!(!cleaned.contains("mr"));
}

#[test]
fn windows_delimited_legacy_block_is_removed() {
    let content = "keep\n# >>> TR-200 Machine Report configuration >>>\ntr200\n# <<< TR-200 Machine Report configuration <<<\nrest\n";
    let cleaned = windows::remove_legacy_blocks(content);
    assert!(cleaned.contains("keep"));
    assert!(cleaned.contains("rest"));
    assert!(!cleaned.contains("tr200"));
}

#[test]
fn windows_install_appends_block_after_cleaning() {
    let out = windows::installed_profile("Set-Alias q v\n");
    assert!(out.starts_with("Set-Alias q v"));
    assert!(out.contains("# TR-300 Machine Report"));
    assert!(out.ends_with("# End TR-300"));
    let fresh = windows::installed_profile("");
    assert!(fresh.starts_with("# TR-300 Machine Report"));
}
