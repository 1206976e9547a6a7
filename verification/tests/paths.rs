use spin_clean::paths::{
    absolutized, containing_dir, require_absolute, require_relative, InvalidWorkdirError,
    PathError,
};
use spin_clean::{absolutize, construct_workdir, parent_dir};

#[test]
fn no_workdir_is_the_application_root() {
    assert_eq!(construct_workdir("/srv/app", None), Ok("/srv/app".to_string()));
    assert_eq!(construct_workdir("/srv/app/", None), Ok("/srv/app/".to_string()));
}

#[test]
fn relative_workdir_is_joined_to_the_application_root() {
    assert_eq!(construct_workdir("/srv/app", Some("sub/dir")), Ok("/srv/app/sub/dir".to_string()));
}

#[test]
fn joining_adds_no_second_separator() {
    assert_eq!(construct_workdir("/srv/app/", Some("sub")), Ok("/srv/app/sub".to_string()));
    assert_eq!(construct_workdir("/", Some("sub")), Ok("/sub".to_string()));
}

#[test]
fn relative_workdir_is_not_normalized() {
    assert_eq!(construct_workdir("/srv/app", Some("../other")), Ok("/srv/app/../other".to_string()));
    assert_eq!(construct_workdir("/srv/app", Some("./x")), Ok("/srv/app/./x".to_string()));
}

#[test]
fn rooted_workdir_is_refused() {
    let err = construct_workdir("/srv/app", Some("/etc")).unwrap_err();
    assert_eq!(err, InvalidWorkdirError { workdir: "/etc".to_string() });
    assert_eq!(err.message(), "The workdir specified in the application file must be relative.");
    assert!(construct_workdir("/srv/app", Some("/")).is_err());
}

#[test]
fn require_relative_goes_by_the_flag() {
    assert_eq!(require_relative("sub", false), Ok(()));
    assert_eq!(require_relative("/abs", true), Err(InvalidWorkdirError { workdir: "/abs".to_string() }));
}

#[test]
fn containing_dir_needs_a_parent() {
    assert_eq!(containing_dir("/a/b", Some("/a".to_string())).unwrap(), "/a");
    match containing_dir("/", None) {
        Err(PathError::NoParent { file }) => assert_eq!(file, "/"),
        other => panic!("unexpected: {:?}", other),
    }
}

#[test]
fn absolutized_maps_each_outcome() {
    assert_eq!(absolutized("x", Ok(Some("/cwd/x".to_string()))).unwrap(), "/cwd/x");
    match absolutized("x", Ok(None)) {
        Err(PathError::NotUnicode { path }) => assert_eq!(path, "x"),
        other => panic!("unexpected: {:?}", other),
    }
    let cause = std::io::Error::new(std::io::ErrorKind::NotFound, "gone");
    match absolutized("x", Err(cause)) {
        Err(PathError::Unresolved { path, source }) => {
            assert_eq!(path, "x");
            assert_eq!(source.kind(), std::io::ErrorKind::NotFound);
        },
        other => panic!("unexpected: {:?}", other),
    }
}

#[test]
fn require_absolute_goes_by_the_flag() {
    assert_eq!(require_absolute("x", "/cwd/x".to_string(), true).unwrap(), "/cwd/x");
    match require_absolute("x", "cwd/x".to_string(), false) {
        Err(PathError::NotAbsolute { path }) => assert_eq!(path, "x"),
        other => panic!("unexpected: {:?}", other),
    }
}

#[test]
fn absolutize_gives_an_absolute_path() {
    for path in ["", ".", "..", "a", "a/b/../c", "./a", "../a", "/", "/a/./b", "/a/../.."] {
        let absolute = absolutize(path).unwrap();
        assert!(std::path::Path::new(&absolute).is_absolute(), "{:?} gave {:?}", path, absolute);
    }
}

#[test]
fn parent_dir_gives_an_absolute_path() {
    for file in ["manifest.toml", "a/manifest.toml", "../manifest.toml", "/a/manifest.toml"] {
        let dir = parent_dir(file).unwrap();
        assert!(std::path::Path::new(&dir).is_absolute(), "{:?} gave {:?}", file, dir);
    }
}

#[test]
fn path_error_messages() {
    let e = PathError::NoParent { file: "/".to_string() };
    assert_eq!(e.message(), "Failed to get containing directory for file '/'");
    let e = PathError::Unresolved {
        path: "a/b".to_string(),
        source: std::io::Error::new(std::io::ErrorKind::NotFound, "gone"),
    };
    assert_eq!(e.message(), "Failed to resolve absolute path to: a/b");
    let e = PathError::NotUnicode { path: "a".to_string() };
    assert_eq!(e.message(), "The absolute path is not valid Unicode for: a");
    let e = PathError::NotAbsolute { path: "a".to_string() };
    assert_eq!(e.message(), "The resolved path is not absolute for: a");
}

#[test]
fn absolutize_keeps_an_absolute_path() {
    assert_eq!(absolutize("/srv/app").unwrap(), "/srv/app");
}

#[test]
fn absolutize_removes_dots_of_an_absolute_path() {
    assert_eq!(absolutize("/srv/./app/../other").unwrap(), "/srv/other");
    assert_eq!(absolutize("/..").unwrap(), "/");
}

#[test]
fn absolutize_makes_a_relative_path_absolute() {
    let absolute = absolutize("some/dir").unwrap();
    assert!(absolute.starts_with('/'));
    assert!(absolute.ends_with("/some/dir"));
}

#[test]
fn parent_dir_of_a_file() {
    assert_eq!(parent_dir("/srv/app/spin-clean.toml").unwrap(), "/srv/app");
    assert_eq!(parent_dir("/manifest.toml").unwrap(), "/");
}

#[test]
fn parent_dir_is_made_absolute() {
    assert_eq!(parent_dir("/srv/app/../other/manifest.toml").unwrap(), "/srv/other");
    let dir = parent_dir("manifest.toml").unwrap();
    assert!(dir.starts_with('/'));
}

#[test]
fn parent_dir_of_a_root_fails() {
    match parent_dir("/") {
        Err(PathError::NoParent { file }) => assert_eq!(file, "/"),
        other => panic!("unexpected: {:?}", other),
    }
    match parent_dir("") {
        Err(PathError::NoParent { file }) => assert_eq!(file, ""),
        other => panic!("unexpected: {:?}", other),
    }
}

#[test]
fn absolutize_resolves_dots_of_an_absolute_path() {
    assert_eq!(absolutize("/a/b/../c").unwrap(), "/a/c");
    assert_eq!(absolutize("/a/../../b").unwrap(), "/b");
}

#[test]
fn absolutize_places_a_relative_path_under_the_current_directory() {
    let cwd = absolutize("").unwrap();
    let below = if cwd == "/" { "/x/y".to_string() } else { format!("{}/x/y", cwd) };
    assert_eq!(absolutize("x/./y").unwrap(), below);
    assert_eq!(absolutize(".").unwrap(), cwd);
}

#[test]
fn absolutize_takes_leading_dots_from_the_parent_of_the_current_directory() {
    let up = absolutize("..").unwrap();
    let expected = if up == "/" { "/x".to_string() } else { format!("{}/x", up) };
    assert_eq!(absolutize("../x").unwrap(), expected);
}

#[test]
fn parent_dir_is_the_directory_without_the_file_name() {
    assert_eq!(parent_dir("/a/b/spin-clean.toml").unwrap(), "/a/b");
    assert_eq!(parent_dir("/a/b/../c/f.toml").unwrap(), "/a/c");
    assert_eq!(parent_dir("/a").unwrap(), "/");
}

#[test]
fn parent_dir_of_a_bare_file_name_is_the_current_directory() {
    assert_eq!(parent_dir("spin-clean.toml").unwrap(), absolutize("").unwrap());
}
