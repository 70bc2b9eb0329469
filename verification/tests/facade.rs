use tinyfiledialogs::{
    ColorChooser, DefaultColorValue, Dialog, FileDialog, InputBox, MessageBox, MessageBoxIcon,
    Notification,
};

#[test]
fn dialog_builder_holds_title_and_message() {
    let d = Dialog::new("a title", "a message");
    assert_eq!(d.title(), "a title");
    assert_eq!(d.message(), "a message");
    let d = d.with_title("other").with_message("text");
    assert_eq!(d.title(), "other");
    assert_eq!(d.message(), "text");
}

#[test]
fn dialog_sanitize_input_escapes_shell_characters() {
    assert_eq!(Dialog::sanitize_input("plain"), "plain");
    assert_eq!(Dialog::sanitize_input("a\"b"), "a\\\"b");
    assert_eq!(Dialog::sanitize_input("a'b"), "a\\'b");
    assert_eq!(Dialog::sanitize_input("a`b"), "a\\`b");
    assert_eq!(Dialog::sanitize_input("\"'`"), "\\\"\\'\\`");
}

#[test]
fn message_box_builder_defaults_to_info_icon() {
    let m = MessageBox::new("t", "m");
    assert_eq!(m.icon(), MessageBoxIcon::Info);
    assert_eq!(m.title(), "t");
    assert_eq!(m.message(), "m");
    let m = m.with_icon(MessageBoxIcon::Error);
    assert_eq!(m.icon(), MessageBoxIcon::Error);
}

#[test]
fn message_box_icon_names() {
    assert_eq!(MessageBoxIcon::Info.to_str(), "info");
    assert_eq!(MessageBoxIcon::Warning.to_str(), "warning");
    assert_eq!(MessageBoxIcon::Error.to_str(), "error");
    assert_eq!(MessageBoxIcon::Question.to_str(), "question");
}

#[test]
fn input_box_builder() {
    let i = InputBox::new("t", "m");
    assert_eq!(i.default_value(), None);
    assert!(!i.is_password());
    let i = i.with_default("secret").password(true);
    assert_eq!(i.default_value(), Some("secret"));
    assert!(i.is_password());
    assert_eq!(i.title(), "t");
    assert_eq!(i.message(), "m");
}

#[test]
fn file_dialog_builder() {
    let f = FileDialog::new("open");
    assert_eq!(f.title(), "open");
    assert_eq!(f.path(), "");
    assert!(f.filter_patterns().is_empty());
    assert_eq!(f.filter_description(), "");
    assert!(!f.multiple_selection());
    let f = f
        .with_path("/tmp/x.txt")
        .with_filter(&["*.txt", "*.md"], "Text files")
        .with_multiple_selection(true);
    assert_eq!(f.path(), "/tmp/x.txt");
    assert_eq!(f.filter_patterns().to_vec(), vec!["*.txt".to_string(), "*.md".to_string()]);
    assert_eq!(f.filter_description(), "Text files");
    assert!(f.multiple_selection());
}

#[test]
fn color_chooser_builder() {
    let c = ColorChooser::new("pick");
    assert_eq!(c.title(), "pick");
    match c.default_color() {
        DefaultColorValue::RGB(rgb) => assert_eq!(*rgb, [0, 0, 0]),
        DefaultColorValue::Hex(_) => panic!("default should be RGB"),
    }
    assert_eq!(c.default_rgb(), [0, 0, 0]);
    let c = c.with_default_color(DefaultColorValue::Hex("#ff0000".to_string()));
    assert!(c.default_color_wf());
    assert_eq!(c.default_rgb(), [255, 0, 0]);
    let c = c.with_default_color(DefaultColorValue::Hex("#ff".to_string()));
    assert!(!c.default_color_wf());
}

#[test]
fn notification_builder() {
    let n = Notification::new("t", "m");
    assert_eq!(n.title(), "t");
    assert_eq!(n.message(), "m");
    assert_eq!(n.subtitle(), None);
    assert_eq!(n.sound(), None);
    let n = n.with_subtitle("sub").with_sound("ping");
    assert_eq!(n.subtitle(), Some("sub"));
    assert_eq!(n.sound(), Some("ping"));
}

#[test]
fn ios_dialogs_always_decline() {
    let f = FileDialog::new("t");
    assert!(tinyfiledialogs::ios::save_file_dialog(&f).is_none());
    assert!(tinyfiledialogs::ios::open_file_dialog(&f).is_none());
    assert!(tinyfiledialogs::ios::select_folder_dialog(&f).is_none());
    let c = ColorChooser::new("t");
    assert!(tinyfiledialogs::ios::color_chooser_dialog(&c).is_none());
}
