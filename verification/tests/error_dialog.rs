use egelm::window::error_dialog::ErrorDialog;

#[test]
fn emit_queues_errors_in_fifo_order() {
    let mut dialog = ErrorDialog::default();

    dialog.emit("first".to_owned(), Some("details".to_owned()));
    dialog.emit("second".to_owned(), None);

    assert_eq!(dialog.errors().len(), 2);
    assert_eq!(dialog.errors()[0].summary, "first");
    assert_eq!(dialog.errors()[0].details.as_deref(), Some("details"));
    assert_eq!(dialog.errors()[1].summary, "second");
    assert!(dialog.errors()[1].details.is_none());
}

#[test]
fn dialog_texts_follow_the_queue() {
    let mut dialog = ErrorDialog::new();
    assert!(!dialog.is_open());
    assert_eq!(dialog.counter_text(), "");
    assert_eq!(dialog.summary_text(), "");
    assert_eq!(dialog.dismiss_label(), "Close");

    dialog.emit("first".to_owned(), Some("details".to_owned()));
    assert!(dialog.is_open());
    assert_eq!(dialog.counter_text(), "");
    assert_eq!(dialog.dismiss_label(), "Close");

    dialog.emit("second".to_owned(), None);
    dialog.emit("third".to_owned(), None);
    assert_eq!(dialog.counter_text(), "1 of 3 errors");
    assert_eq!(dialog.summary_text(), "first");
    assert_eq!(dialog.front_details().as_deref(), Some("details"));
    assert_eq!(dialog.dismiss_label(), "Dismiss");

    dialog.dismiss();
    assert_eq!(dialog.summary_text(), "second");
    assert_eq!(dialog.front_details(), None);
    assert_eq!(dialog.counter_text(), "1 of 2 errors");

    dialog.dismiss();
    dialog.dismiss();
    assert!(!dialog.is_open());
    dialog.dismiss();
    assert!(!dialog.is_open());
}
