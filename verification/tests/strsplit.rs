use uproc::strsplit::{until_char, Delimiter, StrSplit};

fn collect_parts<'h, D: Delimiter>(mut split: StrSplit<'h, D>) -> Vec<&'h str> {
    let mut parts: Vec<&'h str> = Vec::new();
    while let Some(part) = split.next() {
        parts.push(part);
    }
    parts
}

#[test]
fn until_char_test() {
    assert_eq!(until_char("hello world", 'o'), "hell");
}

#[test]
fn it_works() {
    let haystack = "a b c d e";
    let letters = collect_parts(StrSplit::new(haystack, " "));
    assert_eq!(letters, vec!["a", "b", "c", "d", "e"]);
}

#[test]
fn tail() {
    let haystack = "a b c d ";
    let letters = collect_parts(StrSplit::new(haystack, " "));
    assert_eq!(letters, vec!["a", "b", "c", "d", ""]);
}

#[test]
fn until_char_absent() {
    assert_eq!(until_char("hello", 'z'), "hello");
}

#[test]
fn char_find_next_positions() {
    assert_eq!(Delimiter::find_next(&'l', "hello"), Some((2, 3)));
    assert_eq!(Delimiter::find_next(&'z', "hello"), None);
}

#[test]
fn str_find_next_positions() {
    assert_eq!(Delimiter::find_next(&"lo", "hello world"), Some((3, 5)));
    assert_eq!(Delimiter::find_next(&"xyz", "hello"), None);
    assert_eq!(Delimiter::find_next(&"hello!", "hello"), None);
}

#[test]
fn multi_char_delimiter_split() {
    let parts = collect_parts(StrSplit::new("one::two::three", "::"));
    assert_eq!(parts, vec!["one", "two", "three"]);
}
