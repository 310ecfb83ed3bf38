use rs_wrapper::nesting::first_too_deep;

#[test]
fn empty_text_is_never_too_deep() {
    assert_eq!(first_too_deep(b"", 0), None);
    assert_eq!(first_too_deep(b"", 5), None);
}

#[test]
fn flat_text_is_never_too_deep() {
    assert_eq!(first_too_deep(b"12345 true \"abc\"", 0), None);
}

#[test]
fn the_opener_beyond_the_limit_is_found() {
    assert_eq!(first_too_deep(b"[[[]]]", 3), None);
    assert_eq!(first_too_deep(b"[[[]]]", 2), Some(2));
    assert_eq!(first_too_deep(b"[[[]]]", 1), Some(1));
    assert_eq!(first_too_deep(b"[[[]]]", 0), Some(0));
}

#[test]
fn braces_and_brackets_count_alike() {
    assert_eq!(first_too_deep(b"{\"a\":[{\"b\":[1]}]}", 4), None);
    assert_eq!(first_too_deep(b"{\"a\":[{\"b\":[1]}]}", 3), Some(11));
    assert_eq!(first_too_deep(b"{\"a\":[{\"b\":[1]}]}", 1), Some(5));
}

#[test]
fn closed_levels_do_not_add_up() {
    assert_eq!(first_too_deep(b"[[],[],[],[]]", 2), None);
    assert_eq!(first_too_deep(b"[[],[],[[]],[]]", 2), Some(8));
}

#[test]
fn openers_inside_strings_do_not_count() {
    assert_eq!(first_too_deep(b"[\"[[[[{{{{\"]", 1), None);
    assert_eq!(first_too_deep(b"\"[\"", 0), None);
}

#[test]
fn an_escaped_quote_does_not_end_the_string() {
    assert_eq!(first_too_deep(b"[\"a\\\"[[[\"]", 1), None);
    assert_eq!(first_too_deep(b"[\"a\\\\\",[[1]]]", 2), Some(8));
}

#[test]
fn closers_inside_strings_do_not_count() {
    assert_eq!(first_too_deep(b"[\"]\",[1]]", 1), Some(5));
}

#[test]
fn a_closer_with_nothing_open_is_passed_over() {
    assert_eq!(first_too_deep(b"]]]][[", 1), Some(5));
    assert_eq!(first_too_deep(b"}}[", 1), None);
}

#[test]
fn unclosed_text_counts_as_far_as_it_goes() {
    assert_eq!(first_too_deep(b"[[[[", 4), None);
    assert_eq!(first_too_deep(b"[[[[", 3), Some(3));
    assert_eq!(first_too_deep(b"[\"unfinished [[[", 1), None);
}
