use chat_history::paths::{starts_at_root, DatasetRoot, PathError};

fn root() -> DatasetRoot {
    DatasetRoot("/data/history".to_owned())
}

#[test]
fn to_absolute_appends_to_the_root() {
    assert_eq!(root().to_absolute("media/1.gif"), "/data/history/media/1.gif");
    assert_eq!(root().to_absolute("a"), "/data/history/a");
    assert_eq!(DatasetRoot("/data/".to_owned()).to_absolute("a/b"), "/data/a/b");
    assert_eq!(DatasetRoot("/".to_owned()).to_absolute("a"), "/a");
}

#[test]
fn to_absolute_agrees_with_the_standard_library() {
    for (r, p) in [("/data/history", "media/1.gif"), ("/data/", "x"), ("/", "x/y"), ("/a", "")] {
        let expected = std::path::Path::new(r).join(p);
        assert_eq!(DatasetRoot(r.to_owned()).to_absolute(p), expected.to_str().unwrap());
    }
}

#[test]
fn absolute_input_is_told_apart() {
    assert!(starts_at_root("/data/history/a"));
    assert!(starts_at_root("/"));
    assert!(!starts_at_root("media/1.gif"));
    assert!(!starts_at_root(""));
}

#[test]
fn to_relative_strips_the_root() {
    assert_eq!(root().to_relative("/data/history/media/1.gif"), Ok("media/1.gif".to_owned()));
    assert_eq!(root().to_relative("/data/history/a"), Ok("a".to_owned()));
    assert_eq!(DatasetRoot("/".to_owned()).to_relative("/a/b"), Ok("a/b".to_owned()));
    assert_eq!(DatasetRoot("/data/".to_owned()).to_relative("/data/a"), Ok("a".to_owned()));
}

#[test]
fn to_relative_fails_outside_the_root() {
    assert_eq!(root().to_relative("/data/other/a"), Err(PathError::NotUnderRoot));
    assert_eq!(root().to_relative("/data/history"), Err(PathError::NotUnderRoot));
    assert_eq!(root().to_relative("/data/history/"), Err(PathError::NotUnderRoot));
    assert_eq!(root().to_relative("/data/historyX/a"), Err(PathError::NotUnderRoot));
    assert_eq!(root().to_relative("/data"), Err(PathError::NotUnderRoot));
    assert_eq!(root().to_relative("media/1.gif"), Err(PathError::NotUnderRoot));
    assert_eq!(root().to_relative(""), Err(PathError::NotUnderRoot));
}

#[test]
fn relative_and_absolute_are_inverse() {
    let r = root();
    for rel in ["a", "media/1.gif", "x/y/z.txt"] {
        let abs = r.to_absolute(rel);
        assert_eq!(r.to_relative(&abs), Ok(rel.to_owned()));
    }
}
