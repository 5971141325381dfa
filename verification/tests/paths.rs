use shell_core::path::{names_of, parent_of, push_piece, render_path, resolve};
use shell_core::search::{literal_path, search_candidates};
use shell_core::text::{join_with, same_text, split_on, starts_with};
use std::path::PathBuf;

fn strings(items: &[&str]) -> Vec<String> {
    items.iter().map(|s| s.to_string()).collect()
}

#[test]
fn splits_at_every_separator() {
    assert_eq!(split_on("/bin:/usr/bin", ':'), strings(&["/bin", "/usr/bin"]));
    assert_eq!(split_on("a", ':'), strings(&["a"]));
    assert_eq!(split_on("", ':'), strings(&[""]));
    assert_eq!(split_on(":", ':'), strings(&["", ""]));
    assert_eq!(split_on("a::b:", ':'), strings(&["a", "", "b", ""]));
    assert_eq!(split_on(":a", ':'), strings(&["", "a"]));
    assert_eq!(split_on("é/ü/", '/'), strings(&["é", "ü", ""]));
}

#[test]
fn splits_as_the_standard_library_does() {
    for text in ["", "/", "//", "a/b", "/a/b/", "a//b", "..", "./x/../y", "no separator"] {
        let expected: Vec<String> = text.split('/').map(|s| s.to_string()).collect();
        assert_eq!(split_on(text, '/'), expected, "{:?}", text);
    }
}

#[test]
fn joins_with_the_separator_between() {
    assert_eq!(join_with(&strings(&["a", "b", "c"]), " "), "a b c");
    assert_eq!(join_with(&strings(&["a"]), " "), "a");
    assert_eq!(join_with(&strings(&[]), " "), "");
    assert_eq!(join_with(&strings(&["", ""]), ", "), ", ");
    assert_eq!(join_with(&strings(&["x", "", "y"]), "/"), "x//y");
}

#[test]
fn joining_a_split_gives_the_text_back() {
    for text in ["", ":", "a:b", "::a::", "/bin:/usr/bin:/usr/local/bin"] {
        assert_eq!(join_with(&split_on(text, ':'), ":"), text);
    }
}

#[test]
fn compares_texts() {
    assert!(same_text("", ""));
    assert!(same_text("cd", "cd"));
    assert!(!same_text("cd", "c"));
    assert!(!same_text("c", "cd"));
    assert!(!same_text("cd", "ce"));
    assert!(!same_text("", "x"));
    assert!(same_text("héllo", "héllo"));
    assert!(!same_text("héllo", "hello"));
}

#[test]
fn tells_the_first_character() {
    assert!(starts_with("/bin", '/'));
    assert!(starts_with("/", '/'));
    assert!(!starts_with("", '/'));
    assert!(!starts_with("bin/", '/'));
    assert!(starts_with("élan", 'é'));
}

#[test]
fn names_along_a_path() {
    assert_eq!(names_of("/"), strings(&[]));
    assert_eq!(names_of("/home/user"), strings(&["home", "user"]));
    assert_eq!(names_of("/home//user/./x/"), strings(&["home", "user", "x"]));
    assert_eq!(names_of(""), strings(&[]));
    assert_eq!(names_of("/a/../b"), strings(&["a", "..", "b"]));
}

#[test]
fn renders_an_absolute_path() {
    assert_eq!(render_path(&strings(&[])), "/");
    assert_eq!(render_path(&strings(&["home"])), "/home");
    assert_eq!(render_path(&strings(&["home", "user"])), "/home/user");
}

#[test]
fn the_directory_above() {
    assert_eq!(parent_of("/home/user".to_string()), "/home");
    assert_eq!(parent_of("/home/user/".to_string()), "/home");
    assert_eq!(parent_of("/home".to_string()), "/");
    assert_eq!(parent_of("/".to_string()), "/");
    assert_eq!(parent_of("/a//b/./".to_string()), "/a");
    assert_eq!(parent_of("/a/..".to_string()), "/a");
}

#[test]
fn appends_a_component() {
    assert_eq!(push_piece("/home".to_string(), "user"), "/home/user");
    assert_eq!(push_piece("/".to_string(), "tmp"), "/tmp");
    assert_eq!(push_piece("/home/".to_string(), "user"), "/home/user");
    assert_eq!(push_piece("/home".to_string(), ""), "/home/");
    assert_eq!(push_piece("/home/".to_string(), ""), "/home/");
    assert_eq!(push_piece("/".to_string(), ""), "/");
    assert_eq!(push_piece("".to_string(), "x"), "x");
}

#[test]
fn parent_of_a_directory() {
    assert_eq!(resolve("/home/user", ".."), "/home");
    assert_eq!(resolve("/home", ".."), "/");
}

#[test]
fn parent_of_the_root_is_the_root() {
    assert_eq!(resolve("/", ".."), "/");
    assert_eq!(resolve("/", "../.."), "/");
    assert_eq!(resolve("/", "../../etc"), "/etc");
}

#[test]
fn resolves_relative_paths() {
    assert_eq!(resolve("/home/user", "docs"), "/home/user/docs");
    assert_eq!(resolve("/home/user", "docs/notes"), "/home/user/docs/notes");
    assert_eq!(resolve("/home/user", "."), "/home/user");
    assert_eq!(resolve("/home/user", "./docs/../music"), "/home/user/music");
    assert_eq!(resolve("/home/user", "../other/./x"), "/home/other/x");
    assert_eq!(resolve("/", "tmp"), "/tmp");
    assert_eq!(resolve("/home/user", "a//b"), "/home/user/a/b");
    assert_eq!(resolve("/home/user", "a/"), "/home/user/a/");
    assert_eq!(resolve("/home/user", "a/.."), "/home/user");
    assert_eq!(resolve("/home/user", "a/../"), "/home/user/");
    assert_eq!(resolve("/home/user", ""), "/home/user/");
    assert_eq!(resolve("/home/user", "~"), "/home/user/~");
    assert_eq!(resolve("/home/user", "..."), "/home/user/...");
}

fn by_path_buf(base: &str, relative: &str) -> PathBuf {
    let mut dir = PathBuf::from(base);
    for component in relative.split('/') {
        match component {
            "." => {}
            ".." => {
                if let Some(parent) = dir.parent() {
                    dir = parent.to_path_buf();
                }
            }
            other => dir.push(other),
        }
    }
    dir
}

#[test]
fn resolves_to_the_path_that_path_buf_reaches() {
    let bases = ["/", "/a", "/a/b", "/home/user/deep/down", "/a/../b", "/x y/z", "/a/b/"];
    let relatives = [
        "", ".", "..", "../..", "../../..", "a", "a/b", "a/", "a//b", "./a", "a/./b", "a/../b",
        "../a", "..a", "a..", "...", "a/b/../../c", ".././../x/", "~", "é/ü", "a///", "//a",
        "a/../", "./", "../", "a/./", "a//../b",
    ];
    for base in bases {
        for relative in relatives {
            assert_eq!(
                by_path_buf(base, relative).to_str(),
                Some(resolve(base, relative).as_str()),
                "{:?} from {:?}",
                relative,
                base
            );
        }
    }
}

#[test]
fn a_resolved_path_is_absolute() {
    for (base, relative) in [("/", ""), ("/a/", ""), ("/a", "../.."), ("/a", "b")] {
        assert!(resolve(base, relative).starts_with('/'));
    }
}

#[test]
fn literal_paths_begin_with_the_separator() {
    assert!(literal_path("/bin/ls"));
    assert!(literal_path("/"));
    assert!(!literal_path("ls"));
    assert!(!literal_path("bin/ls"));
    assert!(!literal_path("./ls"));
    assert!(!literal_path(""));
}

#[test]
fn candidates_follow_the_search_list() {
    assert_eq!(
        search_candidates("ls", Some("/usr/local/bin:/usr/bin:/bin")),
        strings(&["/usr/local/bin/ls", "/usr/bin/ls", "/bin/ls"])
    );
    assert_eq!(search_candidates("ls", Some("/opt")), strings(&["/opt/ls"]));
}

#[test]
fn candidates_without_a_search_list() {
    assert_eq!(search_candidates("ls", None), strings(&["/bin/ls", "/usr/bin/ls"]));
}

#[test]
fn candidates_of_odd_search_lists() {
    assert_eq!(search_candidates("ls", Some("")), strings(&["/ls"]));
    assert_eq!(search_candidates("ls", Some("a::b")), strings(&["a/ls", "/ls", "b/ls"]));
    assert_eq!(search_candidates("ls", Some("/bin/:")), strings(&["/bin//ls", "/ls"]));
}

#[test]
fn a_literal_path_is_its_only_candidate() {
    assert_eq!(search_candidates("/bin/ls", Some("/usr/bin:/opt")), strings(&["/bin/ls"]));
    assert_eq!(search_candidates("/bin/ls", None), strings(&["/bin/ls"]));
    assert_eq!(search_candidates("/nowhere", Some("")), strings(&["/nowhere"]));
}

#[test]
fn a_name_with_an_inner_separator_is_searched_for() {
    assert_eq!(
        search_candidates("bin/ls", Some("/usr:/")),
        strings(&["/usr/bin/ls", "//bin/ls"])
    );
}
