use egelm::portal::file_dialog::{paths_from_uris, uri_to_path, OpenFile, SaveFile};
use egelm::portal::open_uri::{check_uri, parse_uri, OpenTarget, OpenURI};
use egelm::portal::shortcuts::GlobalShortcuts;

#[test]
fn file_uris_are_percent_decoded() {
    assert_eq!(uri_to_path("file:///home/user/My%20File.txt"), Some(b"/home/user/My File.txt".to_vec()));
    assert_eq!(uri_to_path("file:///a%2Fb%c3%a9"), Some(b"/a/b\xc3\xa9".to_vec()));
    assert_eq!(uri_to_path("file:///plain"), Some(b"/plain".to_vec()));
}

#[test]
fn other_schemes_and_bad_escapes_are_refused() {
    assert_eq!(uri_to_path("https://example.com"), None);
    assert_eq!(uri_to_path("file:///bad%2"), None);
    assert_eq!(uri_to_path("file:///bad%zz"), None);
    assert_eq!(uri_to_path("file:///plus%+f"), Some(b"/plus\x0f".to_vec()));
}

#[test]
fn answers_keep_only_file_paths_in_order() {
    let uris = vec!["file:///one".to_owned(), "http://two".to_owned(), "file:///th%72ee".to_owned()];
    assert_eq!(paths_from_uris(&uris), vec![b"/one".to_vec(), b"/three".to_vec()]);
}

#[test]
fn links_open_as_uris() {
    let (target, writeable, ask) = OpenURI::new("https://example.com").ask(true).into_parts();
    assert!(target == OpenTarget::Uri("https://example.com".to_owned()));
    assert!(!writeable);
    assert!(ask);
    assert!(OpenURI::new("mailto:someone@example.com").into_parts().0 == OpenTarget::Uri("mailto:someone@example.com".to_owned()));
}

#[test]
fn local_paths_open_as_files_or_directories() {
    let dir = "/";
    assert!(OpenURI::new(dir).into_parts().0 == OpenTarget::Directory(dir.to_owned()));
    let uri = format!("file://{dir}");
    assert!(OpenURI::new(&uri).into_parts().0 == OpenTarget::Directory(dir.to_owned()));
    let missing = "/no/such/egelm/file.txt";
    let (target, writeable, _) = OpenURI::new(missing).writeable(true).into_parts();
    assert!(target == OpenTarget::File(missing.to_owned()));
    assert!(writeable);
    assert!(OpenURI::classify("file:///x", true).into_parts().0 == OpenTarget::Directory("/x".to_owned()));
}

#[test]
fn dialog_requests_collect_their_options() {
    let (title, label, multiple, directory, filters) =
        OpenFile::new().title("Pick").accept_label("Open").multiple(true).directory(true).into_parts();
    assert_eq!(title.as_deref(), Some("Pick"));
    assert_eq!(label.as_deref(), Some("Open"));
    assert!(multiple && directory);
    assert!(filters.is_empty());
    let filter = ashpd::desktop::file_chooser::FileFilter::new("Text").glob("*.txt");
    let (_, _, name, filters) = SaveFile::new().current_name("notes.txt").filter(filter).into_parts();
    assert_eq!(name.as_deref(), Some("notes.txt"));
    assert_eq!(filters.len(), 1);
}

#[test]
fn shortcuts_are_requested_in_order() {
    let request = GlobalShortcuts::new().shortcut("quit", "Quit").shortcut_with_trigger("toggle", "Toggle", "Control+Alt+F");
    assert_eq!(request.len(), 2);
    assert_eq!(request.descriptors().len(), 2);
}

#[test]
fn portal_uris_need_a_scheme() {
    assert!(check_uri("https://example.com"));
    assert!(check_uri("mailto:someone@example.com"));
    assert!(!check_uri(""));
    assert!(!check_uri("example.com"));
    assert!(!check_uri(":missing"));
    assert_eq!(parse_uri("https://example.com").unwrap().as_str(), "https://example.com");
    assert!(matches!(parse_uri(""), Err(egelm::error::Error::Portal(_))));
    assert!(matches!(parse_uri("no-scheme"), Err(egelm::error::Error::Portal(_))));
    assert!(matches!(parse_uri(":x"), Err(egelm::error::Error::Portal(_))));
}

#[test]
fn shortcut_descriptors_carry_their_entries() {
    let request = GlobalShortcuts::new().shortcut("quit", "Quit app").shortcut_with_trigger("toggle", "Toggle view", "Control+Alt+F");
    let descriptors = request.descriptors();
    let first = format!("{:?}", descriptors[0]);
    let second = format!("{:?}", descriptors[1]);
    assert!(first.contains("\"quit\"") && first.contains("\"Quit app\"") && first.contains("None"));
    assert!(second.contains("\"toggle\"") && second.contains("\"Toggle view\"") && second.contains("\"Control+Alt+F\""));
    assert!(first.find("\"quit\"").unwrap() < first.find("\"Quit app\"").unwrap());
}
