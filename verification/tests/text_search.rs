use localbook_supervisor::text::str_contains;

#[test]
fn finds_needle_in_middle() {
    assert!(str_contains("{\"models\":[{\"name\":\"llama3.2\"}]}", "llama3.2"));
}

#[test]
fn finds_needle_at_start_and_end() {
    assert!(str_contains("llama3.2 and more", "llama3.2"));
    assert!(str_contains("ends with llava", "llava"));
}

#[test]
fn rejects_absent_needle() {
    assert!(!str_contains("{\"models\":[{\"name\":\"llama3.2\"}]}", "llava"));
}

#[test]
fn empty_needle_is_always_found() {
    assert!(str_contains("anything", ""));
    assert!(str_contains("", ""));
}

#[test]
fn needle_longer_than_haystack_is_absent() {
    assert!(!str_contains("abc", "abcd"));
}

#[test]
fn near_miss_is_absent() {
    assert!(!str_contains("llama3-2", "llama3.2"));
    assert!(!str_contains("llama3.", "llama3.2"));
}

#[test]
fn repeated_prefix_is_handled() {
    assert!(str_contains("aaab", "aab"));
    assert!(!str_contains("aaac", "aab"));
}
