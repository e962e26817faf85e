use esp_scaffold::descriptor::BuildDescriptor;

#[test]
fn parse_cuts_content_into_lines() {
    let descriptor = BuildDescriptor::parse("one\ntwo\nthree");
    assert_eq!(descriptor.line_count(), 3);
    assert_eq!(descriptor.line(0), Some("one"));
    assert_eq!(descriptor.line(1), Some("two"));
    assert_eq!(descriptor.line(2), Some("three"));
    assert_eq!(descriptor.line(3), None);
}

#[test]
fn parse_of_empty_content_is_one_empty_line() {
    let descriptor = BuildDescriptor::parse("");
    assert_eq!(descriptor.line_count(), 1);
    assert_eq!(descriptor.line(0), Some(""));
}

#[test]
fn content_that_ends_in_a_break_ends_in_an_empty_line() {
    let descriptor = BuildDescriptor::parse("one\ntwo\n");
    assert_eq!(descriptor.line_count(), 3);
    assert_eq!(descriptor.line(2), Some(""));
}

#[test]
fn render_gives_back_what_was_parsed() {
    for content in ["", "a", "a\n", "a\nb\n\nc\n", "\n\n"] {
        assert_eq!(BuildDescriptor::parse(content).render(), content);
    }
}

#[test]
fn replace_line_changes_one_line() {
    let mut descriptor = BuildDescriptor::parse("a\nb\nc\nd\ne\nf");
    assert!(descriptor.replace_line(4, "set(CMAKE_CXX_STANDARD 11)"));
    assert_eq!(descriptor.render(), "a\nb\nc\nd\nset(CMAKE_CXX_STANDARD 11)\nf");
    assert_eq!(descriptor.line_count(), 6);
}

#[test]
fn replace_line_at_the_first_and_the_last_position() {
    let mut descriptor = BuildDescriptor::parse("a\nb\nc");
    assert!(descriptor.replace_line(0, "x"));
    assert!(descriptor.replace_line(2, "z"));
    assert_eq!(descriptor.render(), "x\nb\nz");
}

#[test]
fn replace_line_beyond_the_end_changes_nothing() {
    let mut descriptor = BuildDescriptor::parse("a\nb\nc");
    let before = descriptor.clone();
    assert!(!descriptor.replace_line(3, "x"));
    assert!(!descriptor.replace_line(4, "x"));
    assert!(!descriptor.replace_line(usize::MAX, "x"));
    assert_eq!(descriptor, before);
    assert_eq!(descriptor.render(), "a\nb\nc");
}

#[test]
fn push_line_adds_a_last_line() {
    let mut descriptor = BuildDescriptor::parse("a\nb");
    descriptor.push_line("project(demo)");
    assert_eq!(descriptor.line_count(), 3);
    assert_eq!(descriptor.line(2), Some("project(demo)"));
    assert_eq!(descriptor.render(), "a\nb\nproject(demo)");
}

#[test]
fn push_line_after_a_trailing_break() {
    let mut descriptor = BuildDescriptor::parse("a\n");
    descriptor.push_line("b");
    assert_eq!(descriptor.render(), "a\n\nb");
}
