use file_uploader::paths::{
    compressed_output_path, file_name, gz_sibling_path, join_path, stored_path, upload_name,
    upload_target_path,
};
use std::path::Path;

fn std_file_name(p: &str) -> Option<String> {
    Path::new(p)
        .file_name()
        .and_then(|n| n.to_str())
        .map(|n| n.to_string())
}

#[test]
fn file_name_matches_std_path() {
    let paths = [
        "a/b.txt", "b", "/", "", ".", "..", "a/..", "a/.", "a//b//", "./x", "/usr/lib/", "a/./",
        "/a/b/../c", "...", ".hidden", "dir/.hidden", "//", "./", "../x", "x/./.", "a b/c d.txt",
    ];
    for p in paths {
        assert_eq!(file_name(p), std_file_name(p), "path {:?}", p);
    }
}

#[test]
fn file_name_examples() {
    assert_eq!(file_name("uploads/report.pdf"), Some("report.pdf".to_string()));
    assert_eq!(file_name("a/.."), None);
    assert_eq!(file_name("/"), None);
    assert_eq!(file_name("a/./"), Some("a".to_string()));
}

#[test]
fn join_matches_std_path() {
    let cases = [
        ("files", "x"),
        ("files/", "x"),
        ("", "x"),
        ("files", "/abs/y"),
        ("files", ""),
        ("a/b", "c/d"),
        ("/", "z"),
    ];
    for (base, name) in cases {
        let expected = Path::new(base).join(name).to_str().unwrap().to_string();
        assert_eq!(join_path(base, name), expected, "join {:?} {:?}", base, name);
    }
}

#[test]
fn joined_plain_name_keeps_its_file_name() {
    for base in ["files", "files/", "", "/", "a/b"] {
        for name in ["x", "report.pdf", "...", ".gz"] {
            assert_eq!(file_name(&join_path(base, name)), Some(name.to_string()));
        }
    }
}

#[test]
fn stored_and_uploaded_names() {
    assert_eq!(stored_path("a.txt"), "files/a.txt");
    assert_eq!(upload_name("dir/a.txt"), "a.txt");
    assert_eq!(upload_name("/"), "uploaded_file");
    assert_eq!(upload_name(".."), "uploaded_file");
    assert_eq!(stored_path(&upload_name("..")), "files/uploaded_file");
}

#[test]
fn stored_upload_keeps_name() {
    for p in ["dir/a.txt", "/", "x/..", "b"] {
        let name = upload_name(p);
        assert_eq!(file_name(&stored_path(&name)), Some(name.clone()));
    }
}

#[test]
fn compressed_copy_paths() {
    assert_eq!(compressed_output_path("dir/a.txt"), Some("files/a.txt.gz".to_string()));
    assert_eq!(compressed_output_path("files/a.txt"), Some("files/a.txt.gz".to_string()));
    assert_eq!(compressed_output_path(".."), None);
    assert_eq!(compressed_output_path(""), None);
    let out = compressed_output_path("x/y/notes").unwrap();
    assert_eq!(file_name(&out), Some("notes.gz".to_string()));
}

#[test]
fn sibling_and_form_paths() {
    assert_eq!(gz_sibling_path("files/a"), "files/a.gz");
    assert_eq!(gz_sibling_path(""), ".gz");
    assert_eq!(upload_target_path("x.png"), "files/x.png");
    assert_eq!(upload_target_path("../x"), "files/../x");
}
