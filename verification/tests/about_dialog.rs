use egelm::widgets::AboutDialog;
use egelm::window::about_dialog::{AboutField, AboutTab};

#[test]
fn a_new_dialog_is_closed_and_shows_only_its_header() {
    let dialog = AboutDialog::new("My App");
    assert!(!dialog.is_open());
    assert_eq!(dialog.name(), "My App");
    assert_eq!(dialog.section(), None);
    assert!(!dialog.shows_tabs());
    assert_eq!(dialog.version_line(), None);
}

#[test]
fn details_and_legal_sections_follow_the_content() {
    let mut dialog = AboutDialog::new("My App")
        .version("1.0.0")
        .developer("Example Developer")
        .website_url("https://example.com")
        .description("A short description");
    assert_eq!(dialog.version_line().as_deref(), Some("Version 1.0.0"));
    assert_eq!(dialog.developer_line().as_deref(), Some("Developed by Example Developer"));
    assert_eq!(dialog.section(), Some(AboutTab::Details));
    assert_eq!(dialog.field(AboutField::WebsiteUrl), Some("https://example.com"));
    assert_eq!(dialog.field(AboutField::IssuesUrl), None);

    dialog = dialog.license_year(2026).license_name("MIT");
    assert!(dialog.shows_tabs());
    assert_eq!(dialog.copyright_line().as_deref(), Some("© 2026 Example Developer"));
    dialog.select_tab(AboutTab::Legal);
    assert_eq!(dialog.section(), Some(AboutTab::Legal));

    dialog.open();
    assert!(dialog.is_open());
    dialog.close();
    assert!(!dialog.is_open());
}

#[test]
fn legal_alone_shows_the_legal_section() {
    let dialog = AboutDialog::new("X").license_year(1999).license_text("text");
    assert_eq!(dialog.section(), Some(AboutTab::Legal));
    assert!(!dialog.has_details());
    assert_eq!(dialog.copyright_line().as_deref(), Some("© 1999"));
    assert_eq!(dialog.year(), Some(1999));
}
