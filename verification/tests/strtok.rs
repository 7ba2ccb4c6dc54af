use uproc::strtok::strtok;

#[test]
fn lib_it_works() {
    let mut s = "hello world";
    let hello = strtok(&mut s, ' ');
    assert_eq!(s, "world");
    assert_eq!(hello, "hello");
}

#[test]
fn strtok_no_delimiter() {
    let mut s = "hello";
    let hello = strtok(&mut s, ' ');
    assert_eq!(hello, "hello");
    assert_eq!(s, "");
}

#[test]
fn strtok_walks_whole_string() {
    let mut s = "a,b,,c";
    assert_eq!(strtok(&mut s, ','), "a");
    assert_eq!(strtok(&mut s, ','), "b");
    assert_eq!(strtok(&mut s, ','), "");
    assert_eq!(strtok(&mut s, ','), "c");
    assert_eq!(s, "");
}
