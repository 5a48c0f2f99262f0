use starkdev::profile::{update_bashrc, MARKER, SNIPPET};

fn apply(content: &str) -> String {
    match update_bashrc(content) {
        Some(addition) => format!("{}{}", content, addition),
        None => content.to_string(),
    }
}

#[test]
fn fresh_profile_gets_the_snippet() {
    assert_eq!(update_bashrc("export PATH=$PATH:/opt/bin\n"), Some(SNIPPET));
}

#[test]
fn empty_profile_gets_the_snippet() {
    assert_eq!(update_bashrc(""), Some(SNIPPET));
    assert_eq!(apply(""), SNIPPET);
}

#[test]
fn configured_profile_is_left_alone() {
    let content = format!("# mine\n{}", SNIPPET);
    assert!(content.contains(MARKER));
    assert_eq!(update_bashrc(&content), None);
}

#[test]
fn marker_anywhere_counts_as_configured() {
    assert_eq!(update_bashrc("source ~/.asdf/asdf.sh"), None);
    assert_eq!(update_bashrc(".asdf/asdf.sh"), None);
}

#[test]
fn near_miss_is_not_the_marker() {
    assert_eq!(update_bashrc(". \"$HOME/.asdf/asdf.s"), Some(SNIPPET));
    assert_eq!(update_bashrc(". \"$HOME/.asdf/completions/asdf.bash\"\n"), Some(SNIPPET));
}

#[test]
fn second_run_changes_nothing() {
    let first = apply("alias ll='ls -l'\n");
    let second = apply(&first);
    assert_eq!(second, first);
    assert_eq!(first.matches(MARKER).count(), 1);
    assert_eq!(apply(&second).matches(MARKER).count(), 1);
}

#[test]
fn snippet_text_is_exact() {
    assert_eq!(
        SNIPPET,
        "\n# Load asdf completions and asdf itself\n. \"$HOME/.asdf/asdf.sh\"\n. \"$HOME/.asdf/completions/asdf.bash\"\n\n"
    );
    assert_eq!(MARKER, ".asdf/asdf.sh");
    assert_eq!(SNIPPET.find(MARKER), Some(50));
    assert_eq!(SNIPPET.matches(MARKER).count(), 1);
}

#[test]
fn profile_ending_in_part_of_the_marker_gets_one_marker() {
    let first = apply("echo .asdf/asdf");
    assert_eq!(first.matches(MARKER).count(), 1);
    assert_eq!(apply(&first), first);
}
