use droplink::filename::{
    numbered_name, receive_dir, sanitize_filename, transfer_file_name, unique_path, PathSearch,
    SearchStep,
};

#[test]
fn test_sanitize_filename() {
    assert_eq!(sanitize_filename("photo.jpg"), "photo.jpg");
    assert_eq!(sanitize_filename("../../../evil"), "evil");
    assert_eq!(sanitize_filename("café.jpg"), "café.jpg");
    assert_eq!(sanitize_filename("写真.png"), "写真.png");
    assert_eq!(sanitize_filename("file/path.txt"), "filepath.txt");
    assert_eq!(sanitize_filename(""), "file");
}

#[test]
fn test_unique_path_no_collision() {
    let dir = "/droplink_no_such_dir_12345";
    let path = unique_path(dir, "droplink_test_nonexistent_12345.txt");
    assert_eq!(path, "/droplink_no_such_dir_12345/droplink_test_nonexistent_12345.txt");
}

#[test]
fn sanitize_removes_backslashes_nul_and_hidden_prefix() {
    assert_eq!(sanitize_filename("..\\..\\win.ini"), "win.ini");
    assert_eq!(sanitize_filename(".bashrc"), "bashrc");
    assert_eq!(sanitize_filename("a\0b"), "ab");
    assert_eq!(sanitize_filename("..."), "file");
    assert_eq!(sanitize_filename("/.//.hidden/x"), "hiddenx");
    assert_eq!(sanitize_filename("report.v2.pdf"), "report.v2.pdf");
}

#[test]
fn sanitize_is_idempotent_on_examples() {
    for name in ["../../../evil", ".bashrc", "", "a/b\\c", "photo.jpg", "..."] {
        let once = sanitize_filename(name);
        assert_eq!(sanitize_filename(&once), once);
    }
}

#[test]
fn numbered_names_follow_stem_and_extension() {
    assert_eq!(numbered_name("photo.jpg", 0), "photo.jpg");
    assert_eq!(numbered_name("photo.jpg", 1), "photo (1).jpg");
    assert_eq!(numbered_name("photo.jpg", 12), "photo (12).jpg");
    assert_eq!(numbered_name("archive.tar.gz", 2), "archive.tar (2).gz");
    assert_eq!(numbered_name("README", 3), "README (3)");
}

#[test]
fn unique_path_skips_taken_names() {
    // The root folder always exists; an empty name has no stem, so the
    // next candidate is numbered from `file`.
    assert_eq!(unique_path("/", ""), "/file (1)");
}

#[test]
fn announced_name_is_last_component() {
    assert_eq!(transfer_file_name("/home/lea/photo.jpg"), "photo.jpg");
    assert_eq!(transfer_file_name("notes.txt"), "notes.txt");
    assert_eq!(transfer_file_name("/"), "file");
    assert_eq!(transfer_file_name("dir/.."), "file");
}

#[test]
fn receive_dir_is_droplink_in_downloads() {
    assert_eq!(receive_dir(Some("/home/lea/Downloads")), "/home/lea/Downloads/DropLink");
    assert_eq!(receive_dir(None), "./DropLink");
}

fn probe(search: &mut PathSearch, exists: bool) -> SearchStep {
    search.on_probe(exists)
}

#[test]
fn path_search_takes_first_free_candidate() {
    let (mut search, first) = PathSearch::start("/d", "photo.jpg");
    assert_eq!(first, "/d/photo.jpg");
    match probe(&mut search, true) {
        SearchStep::Probe(p) => assert_eq!(p, "/d/photo (1).jpg"),
        _ => panic!("expected the next candidate"),
    }
    match probe(&mut search, false) {
        SearchStep::Found(p) => assert_eq!(p, "/d/photo (1).jpg"),
        _ => panic!("expected the free candidate"),
    }

    let (mut search, _) = PathSearch::start("/d", "a.tar.gz");
    assert!(matches!(probe(&mut search, true), SearchStep::Probe(ref p) if p == "/d/a.tar (1).gz"));
    assert!(matches!(probe(&mut search, true), SearchStep::Probe(ref p) if p == "/d/a.tar (2).gz"));
    assert!(matches!(probe(&mut search, false), SearchStep::Found(ref p) if p == "/d/a.tar (2).gz"));

    let (mut search, _) = PathSearch::start("/d", "notes");
    assert!(matches!(probe(&mut search, true), SearchStep::Probe(ref p) if p == "/d/notes (1)"));

    let (mut search, first) = PathSearch::start("/d", "x.txt");
    assert!(matches!(probe(&mut search, false), SearchStep::Found(ref p) if *p == first));
}
