use tinyfiledialogs::macos::{
    color_chooser_script, decode_color_triple, decode_file_paths, decode_input_box,
    decode_ok_cancel_script, decode_yes_no_cancel_script, decode_yes_no_script, input_box_script,
    message_box_ok_cancel_script, message_box_ok_script, message_box_yes_no_cancel_script,
    message_box_yes_no_script, notification_script, open_file_dialog_script, posix_path_script,
    sanitize_for_applescript, save_file_dialog_script, select_folder_dialog_script, split_path,
};
use tinyfiledialogs::{
    ColorChooser, DefaultColorValue, FileDialog, InputBox, MessageBox, MessageBoxIcon,
    Notification, OkCancel, YesNo, YesNoCancel,
};

#[test]
fn sanitize_escapes_quotes_and_backslashes() {
    assert_eq!(sanitize_for_applescript("plain"), "plain");
    assert_eq!(sanitize_for_applescript("a\"b"), "a\\\"b");
    assert_eq!(sanitize_for_applescript("a\\b"), "a\\\\b");
    assert_eq!(sanitize_for_applescript("\\\""), "\\\\\\\"");
}

#[test]
fn sanitized_text_has_no_unescaped_quote() {
    for nasty in ["ti\"tle", "a`b\"c", "\"\"", "\\\"", "end\"", "\"start"] {
        let s = sanitize_for_applescript(nasty);
        let chars: Vec<char> = s.chars().collect();
        for (i, c) in chars.iter().enumerate() {
            if *c == '"' {
                assert!(i > 0 && chars[i - 1] == '\\', "unescaped quote in {:?}", s);
            }
        }
    }
}

#[test]
fn message_box_ok_script_text() {
    let m = MessageBox::new("Hi", "Hello");
    assert_eq!(
        message_box_ok_script(&m),
        "display dialog \"Hello\" with title \"Hi\" buttons {\"OK\"} default button \"OK\" "
    );
    let m = m.with_icon(MessageBoxIcon::Warning);
    assert_eq!(
        message_box_ok_script(&m),
        "display dialog \"Hello\" with title \"Hi\" buttons {\"OK\"} default button \"OK\" with icon caution"
    );
}

#[test]
fn message_box_ok_cancel_script_text() {
    let m = MessageBox::new("T", "M").with_icon(MessageBoxIcon::Question);
    assert_eq!(
        message_box_ok_cancel_script(&m, OkCancel::Cancel),
        "display dialog \"M\" with title \"T\" buttons {\"Cancel\", \"OK\"} default button \"Cancel\" with icon note"
    );
}

#[test]
fn message_box_yes_no_script_text() {
    let m = MessageBox::new("T", "M");
    assert_eq!(
        message_box_yes_no_script(&m, YesNo::Yes),
        "display dialog \"M\" with title \"T\" buttons {\"No\", \"Yes\"} default button \"Yes\" "
    );
}

#[test]
fn message_box_yes_no_cancel_script_text() {
    let m = MessageBox::new("T", "M");
    assert_eq!(
        message_box_yes_no_cancel_script(&m, YesNoCancel::No),
        "display dialog \"M\" with title \"T\" buttons {\"Cancel\", \"No\", \"Yes\"} default button \"No\" "
    );
}

#[test]
fn script_sanitizes_interpolated_text() {
    let m = MessageBox::new("T\"; do shell script \"rm\"", "M");
    let s = message_box_ok_script(&m);
    assert_eq!(
        s,
        "display dialog \"M\" with title \"T\\\"; do shell script \\\"rm\\\"\" buttons {\"OK\"} default button \"OK\" "
    );
}

#[test]
fn input_box_script_text() {
    let i = InputBox::new("T", "M").with_default("d");
    assert_eq!(
        input_box_script(&i),
        "display dialog \"M\" with title \"T\" default answer \"d\" buttons {\"Cancel\", \"OK\"} default button \"OK\" "
    );
    let i = InputBox::new("T", "M").password(true);
    assert_eq!(
        input_box_script(&i),
        "display dialog \"M\" with title \"T\" default answer \"\" buttons {\"Cancel\", \"OK\"} default button \"OK\" with hidden answer"
    );
}

#[test]
fn button_decoders() {
    assert_eq!(decode_ok_cancel_script(Some("button returned:OK")), OkCancel::Okay);
    assert_eq!(decode_ok_cancel_script(Some("button returned:Cancel")), OkCancel::Cancel);
    assert_eq!(decode_ok_cancel_script(None), OkCancel::Cancel);
    assert_eq!(decode_yes_no_script(Some("button returned:Yes")), YesNo::Yes);
    assert_eq!(decode_yes_no_script(Some("button returned:No")), YesNo::No);
    assert_eq!(decode_yes_no_script(None), YesNo::No);
}

#[test]
fn three_way_button_decoder() {
    assert_eq!(decode_yes_no_cancel_script(Some("button returned:Yes")), YesNoCancel::Yes);
    assert_eq!(decode_yes_no_cancel_script(Some("button returned:No")), YesNoCancel::No);
    assert_eq!(decode_yes_no_cancel_script(Some("button returned:Cancel")), YesNoCancel::Cancel);
    assert_eq!(decode_yes_no_cancel_script(None), YesNoCancel::Cancel);
}

#[test]
fn input_answer_decoder() {
    assert_eq!(
        decode_input_box(Some("{button returned:OK, text returned:hello}")),
        Some("hello".to_string())
    );
    assert_eq!(
        decode_input_box(Some("button returned:OK, text returned:plain")),
        Some("plain".to_string())
    );
    assert_eq!(decode_input_box(Some("{button returned:Cancel}")), None);
    assert_eq!(decode_input_box(Some("{button returned:OK}")), None);
    assert_eq!(decode_input_box(None), None);
}

#[test]
fn path_splitting() {
    assert_eq!(split_path("/tmp/a.txt"), ("/tmp".to_string(), "a.txt".to_string()));
    assert_eq!(split_path("a.txt"), ("".to_string(), "a.txt".to_string()));
    assert_eq!(split_path("/a.txt"), ("".to_string(), "a.txt".to_string()));
    assert_eq!(split_path("/x/y/z"), ("/x/y".to_string(), "z".to_string()));
}

#[test]
fn save_script_text() {
    let f = FileDialog::new("Save").with_filter(&["*.txt"], "Text");
    assert_eq!(
        save_file_dialog_script(&f, "/tmp/out.txt"),
        "choose file name with prompt \"Save\" default location \"/tmp\" default name \"out.txt\" of type {\"txt\"}"
    );
    let f = FileDialog::new("Save");
    assert_eq!(
        save_file_dialog_script(&f, ""),
        "choose file name with prompt \"Save\"   "
    );
}

#[test]
fn open_script_text() {
    let f = FileDialog::new("Open").with_multiple_selection(true);
    assert_eq!(
        open_file_dialog_script(&f, "/home"),
        "set theResult to choose file with prompt \"Open\" default location \"/home\" with multiple selections allowed "
    );
}

#[test]
fn folder_script_text() {
    let f = FileDialog::new("Pick");
    assert_eq!(
        select_folder_dialog_script(&f, "/srv"),
        "choose folder with prompt \"Pick\" default location \"/srv\""
    );
}

#[test]
fn alias_conversion_script() {
    assert_eq!(posix_path_script("alias X"), "POSIX path of alias X");
}

#[test]
fn multi_path_answer_splits_on_double_bar() {
    assert_eq!(
        decode_file_paths(Some("/a/x.txt||/a/y.txt")),
        Some(vec!["/a/x.txt".to_string(), "/a/y.txt".to_string()])
    );
    assert_eq!(decode_file_paths(Some("/one")), Some(vec!["/one".to_string()]));
    assert_eq!(decode_file_paths(None), None);
}

#[test]
fn color_script_text() {
    let c = ColorChooser::new("C").with_default_color(DefaultColorValue::RGB([255, 0, 1]));
    assert_eq!(
        color_chooser_script(&c),
        "set theColor to choose color default color {65535, 0, 257} with prompt \"C\""
    );
}

#[test]
fn color_answer_decoder() {
    assert_eq!(
        decode_color_triple(Some("118,84,17")),
        Some(("#765411".to_string(), [118, 84, 17]))
    );
    assert_eq!(decode_color_triple(Some("118,84")), None);
    assert_eq!(decode_color_triple(Some("118,84,999")), None);
    assert_eq!(decode_color_triple(Some("x,84,17")), None);
    assert_eq!(decode_color_triple(None), None);
}

#[test]
fn notification_script_text() {
    let n = Notification::new("T", "M");
    assert_eq!(
        notification_script(&n),
        "display notification \"M\" with title \"T\"  "
    );
    let n = n.with_subtitle("S").with_sound("Ping");
    assert_eq!(
        notification_script(&n),
        "display notification \"M\" with title \"T\" subtitle \"S\" sound name \"Ping\""
    );
}
