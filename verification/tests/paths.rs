use media_organizer::paths::file_name;
use media_organizer::paths::join;
use media_organizer::paths::starts_at_root;

#[test]
fn file_name_is_what_follows_the_last_separator() {
    assert_eq!(file_name("/photos/in/IMG_0001.jpg"), Some("IMG_0001.jpg".to_string()));
    assert_eq!(file_name("tmp/foo.txt"), Some("foo.txt".to_string()));
    assert_eq!(file_name("foo.txt"), Some("foo.txt".to_string()));
    assert_eq!(file_name("/foo"), Some("foo".to_string()));
    assert_eq!(file_name("a//b"), Some("b".to_string()));
}

#[test]
fn file_name_keeps_spaces_dots_and_letters_of_any_script() {
    assert_eq!(
        file_name("/root/IMG_2020-01-01 03:04:05.jpg"),
        Some("IMG_2020-01-01 03:04:05.jpg".to_string())
    );
    assert_eq!(file_name("/данные/фото 1.jpg"), Some("фото 1.jpg".to_string()));
    assert_eq!(file_name("/a/.hidden"), Some(".hidden".to_string()));
    assert_eq!(file_name("/a/..."), Some("...".to_string()));
    assert_eq!(file_name("/a/..b"), Some("..b".to_string()));
}

#[test]
fn path_that_ends_in_no_file_name_has_none() {
    assert_eq!(file_name(""), None);
    assert_eq!(file_name("/"), None);
    assert_eq!(file_name("/photos/"), None);
    assert_eq!(file_name("."), None);
    assert_eq!(file_name(".."), None);
    assert_eq!(file_name("/photos/."), None);
    assert_eq!(file_name("/photos/.."), None);
}

#[test]
fn join_puts_one_separator_between() {
    assert_eq!(join("/photos", "2020"), "/photos/2020");
    assert_eq!(join("/photos/", "2020"), "/photos/2020");
    assert_eq!(join("photos", "2020/January"), "photos/2020/January");
    assert_eq!(join("/", "a"), "/a");
}

#[test]
fn join_onto_nothing_adds_no_separator() {
    assert_eq!(join("", "2020"), "2020");
    assert_eq!(join("/photos", ""), "/photos/");
    assert_eq!(join("", ""), "");
}

#[test]
fn join_with_an_absolute_path_gives_that_path() {
    assert_eq!(join("/photos", "/elsewhere/2020"), "/elsewhere/2020");
    assert_eq!(join("", "/"), "/");
}

#[test]
fn join_agrees_with_the_paths_of_std() {
    let bases = ["", "/", "a", "a/", "/a", "/a/b", "/a/b/", "фото"];
    let tails = ["", "x", "x/y", "/x", "x/", "ж"];
    for base in bases {
        for tail in tails {
            let theirs = std::path::Path::new(base).join(tail);
            assert_eq!(join(base, tail), theirs.to_str().unwrap(), "{:?} {:?}", base, tail);
        }
    }
}

#[test]
fn file_name_of_a_joined_path_is_the_name() {
    for base in ["", "/", "a", "a/", "/a/b"] {
        for name in ["x", "x.jpg", ".x", "a b.c"] {
            assert_eq!(file_name(&join(base, name)), Some(name.to_string()));
        }
    }
}

#[test]
fn absolute_paths_start_at_the_root() {
    assert!(starts_at_root("/"));
    assert!(starts_at_root("/a"));
    assert!(!starts_at_root(""));
    assert!(!starts_at_root("a/"));
    assert!(!starts_at_root("./a"));
}
