use tinyfiledialogs::unix::{
    color_chooser_command, console_color_choice, console_open_choice, console_save_choice,
    decode_console_ok_cancel, decode_console_yes_no, decode_console_yes_no_cancel,
    decode_file_list, decode_kdialog_color, decode_kdialog_yes_no_cancel, decode_output_text,
    decode_status_ok_cancel, decode_status_yes_no, decode_zenity_color,
    decode_zenity_yes_no_cancel, detect_dialog_program, input_box_command, message_box_ok_command,
    message_box_ok_cancel_command, message_box_yes_no_cancel_command, message_box_yes_no_command,
    notification_command, open_file_dialog_command, save_file_dialog_command,
    select_folder_dialog_command,
};
use tinyfiledialogs::{
    ColorChooser, DefaultColorValue, FileDialog, InputBox, MessageBox, MessageBoxIcon, Notification,
    OkCancel, YesNo, YesNoCancel,
};

fn args_of(v: &[&str]) -> Vec<String> {
    v.iter().map(|s| s.to_string()).collect()
}

#[test]
fn probe_prefers_zenity() {
    assert_eq!(detect_dialog_program(true, true, true, true), "zenity");
}

#[test]
fn probe_with_only_kdialog_selects_kdialog_every_time() {
    assert_eq!(detect_dialog_program(false, true, false, false), "kdialog");
    assert_eq!(detect_dialog_program(false, true, false, false), "kdialog");
    assert_eq!(detect_dialog_program(false, true, true, true), "kdialog");
}

#[test]
fn probe_order_and_console_fallback() {
    assert_eq!(detect_dialog_program(false, false, true, true), "Xdialog");
    assert_eq!(detect_dialog_program(false, false, false, true), "dialog");
    assert_eq!(detect_dialog_program(false, false, false, false), "console");
}

#[test]
fn message_box_ok_zenity_command() {
    let m = MessageBox::new("T", "M").with_icon(MessageBoxIcon::Warning);
    let c = message_box_ok_command("zenity", &m).unwrap();
    assert_eq!(c.program, "zenity");
    assert_eq!(
        c.args,
        args_of(&["--info", "--title", "T", "--text", "M", "--icon-name", "warning"])
    );
}

#[test]
fn message_box_ok_kdialog_command() {
    let m = MessageBox::new("T", "M");
    let c = message_box_ok_command("kdialog", &m).unwrap();
    assert_eq!(c.program, "kdialog");
    assert_eq!(
        c.args,
        args_of(&["--msgbox", "M", "--title", "T", "--icon", "dialog-information"])
    );
}

#[test]
fn message_box_ok_console_fallback() {
    let m = MessageBox::new("T", "M");
    assert!(message_box_ok_command("console", &m).is_none());
}

#[test]
fn message_box_ok_cancel_zenity_default_cancel() {
    let m = MessageBox::new("T", "M");
    let c = message_box_ok_cancel_command("zenity", &m, OkCancel::Cancel).unwrap();
    assert_eq!(
        c.args,
        args_of(&[
            "--question",
            "--title",
            "T",
            "--text",
            "M",
            "--icon-name",
            "info",
            "--default-cancel",
            "--ok-label=Ok",
            "--cancel-label=Cancel",
        ])
    );
    let c = message_box_ok_cancel_command("zenity", &m, OkCancel::Okay).unwrap();
    assert_eq!(c.args[7], "");
}

#[test]
fn message_box_yes_no_dialog_command() {
    let m = MessageBox::new("T", "M");
    let c = message_box_yes_no_command("dialog", &m, YesNo::Yes).unwrap();
    assert_eq!(c.program, "dialog");
    assert_eq!(c.args, args_of(&["--yesno", "M", "0", "0", "--title", "T"]));
}

#[test]
fn yes_no_cancel_zenity_marks_default_row() {
    let m = MessageBox::new("T", "M");
    let c = message_box_yes_no_cancel_command("zenity", &m, YesNoCancel::Yes).unwrap();
    assert_eq!(
        c.args,
        args_of(&[
            "--list",
            "--radiolist",
            "--title",
            "T",
            "--text",
            "M",
            "--column",
            "",
            "--column",
            "Response",
            "TRUE",
            "Yes",
            "FALSE",
            "No",
            "FALSE",
            "Cancel",
        ])
    );
    let c = message_box_yes_no_cancel_command("zenity", &m, YesNoCancel::No).unwrap();
    assert_eq!(&c.args[10..16], &args_of(&["FALSE", "Yes", "TRUE", "No", "FALSE", "Cancel"])[..]);
}

#[test]
fn yes_no_cancel_kdialog_command_and_fallback() {
    let m = MessageBox::new("T", "M");
    let c = message_box_yes_no_cancel_command("kdialog", &m, YesNoCancel::Cancel).unwrap();
    assert_eq!(c.args, args_of(&["--yesnocancel", "M", "--title", "T"]));
    assert!(message_box_yes_no_cancel_command("Xdialog", &m, YesNoCancel::Yes).is_none());
}

#[test]
fn status_decoders() {
    assert_eq!(decode_status_ok_cancel(Some(true)), OkCancel::Okay);
    assert_eq!(decode_status_ok_cancel(Some(false)), OkCancel::Cancel);
    assert_eq!(decode_status_ok_cancel(None), OkCancel::Cancel);
    assert_eq!(decode_status_yes_no(Some(true)), YesNo::Yes);
    assert_eq!(decode_status_yes_no(None), YesNo::No);
}

#[test]
fn console_confirm_accepts_y_only() {
    assert_eq!(decode_console_ok_cancel("y\n"), OkCancel::Okay);
    assert_eq!(decode_console_ok_cancel("  Y  "), OkCancel::Okay);
    assert_eq!(decode_console_ok_cancel("yes"), OkCancel::Cancel);
    assert_eq!(decode_console_ok_cancel(""), OkCancel::Cancel);
    assert_eq!(decode_console_ok_cancel("n"), OkCancel::Cancel);
    assert_eq!(decode_console_yes_no("y"), YesNo::Yes);
    assert_eq!(decode_console_yes_no("q"), YesNo::No);
}

#[test]
fn console_three_way_answer() {
    assert_eq!(decode_console_yes_no_cancel("y\n"), YesNoCancel::Yes);
    assert_eq!(decode_console_yes_no_cancel("N"), YesNoCancel::No);
    assert_eq!(decode_console_yes_no_cancel("c"), YesNoCancel::Cancel);
    assert_eq!(decode_console_yes_no_cancel(""), YesNoCancel::Cancel);
}

#[test]
fn zenity_three_way_answer() {
    assert_eq!(decode_zenity_yes_no_cancel(true, true, "Yes\n"), YesNoCancel::Yes);
    assert_eq!(decode_zenity_yes_no_cancel(true, true, "No\n"), YesNoCancel::No);
    assert_eq!(decode_zenity_yes_no_cancel(true, true, "Maybe"), YesNoCancel::Cancel);
    assert_eq!(decode_zenity_yes_no_cancel(true, false, "Yes"), YesNoCancel::Cancel);
    assert_eq!(decode_zenity_yes_no_cancel(false, false, ""), YesNoCancel::Cancel);
}

#[test]
fn kdialog_three_way_exit_codes() {
    assert_eq!(decode_kdialog_yes_no_cancel(Some(0)), YesNoCancel::Yes);
    assert_eq!(decode_kdialog_yes_no_cancel(Some(1)), YesNoCancel::No);
    assert_eq!(decode_kdialog_yes_no_cancel(Some(2)), YesNoCancel::Cancel);
    assert_eq!(decode_kdialog_yes_no_cancel(None), YesNoCancel::Cancel);
}

#[test]
fn input_box_commands() {
    let i = InputBox::new("T", "M").with_default("d");
    let c = input_box_command("zenity", &i).unwrap();
    assert_eq!(
        c.args,
        args_of(&["--entry", "--title", "T", "--text", "M", "--entry-text", "d"])
    );
    let i = InputBox::new("T", "M").password(true);
    let c = input_box_command("zenity", &i).unwrap();
    assert_eq!(c.args, args_of(&["--entry", "--title", "T", "--text", "M", "--hide-text"]));
    let c = input_box_command("kdialog", &i).unwrap();
    assert_eq!(c.args, args_of(&["--password", "M", "", "--title", "T"]));
    assert!(input_box_command("dialog", &i).is_none());
}

#[test]
fn output_text_decoder() {
    assert_eq!(decode_output_text(true, true, " hello \n"), Some("hello".to_string()));
    assert_eq!(decode_output_text(true, false, "hello"), None);
    assert_eq!(decode_output_text(false, false, ""), None);
}

#[test]
fn save_file_commands() {
    let f = FileDialog::new("T").with_path("/tmp/out.txt").with_filter(&["*.txt"], "Text");
    let c = save_file_dialog_command("zenity", &f).unwrap();
    assert_eq!(
        c.args,
        args_of(&[
            "--file-selection",
            "--save",
            "--confirm-overwrite",
            "--title",
            "T",
            "--filename",
            "/tmp/out.txt",
            "--file-filter=Text | *.txt",
        ])
    );
    let c = save_file_dialog_command("kdialog", &f).unwrap();
    assert_eq!(c.args, args_of(&["--getsavefilename", "/tmp/out.txt", "--title", "T", "*.txt"]));
}

#[test]
fn open_file_commands() {
    let f = FileDialog::new("T").with_multiple_selection(true).with_filter(&["*.txt", "*.md"], "D");
    let c = open_file_dialog_command("zenity", &f).unwrap();
    assert_eq!(
        c.args,
        args_of(&[
            "--file-selection",
            "--title",
            "T",
            "--multiple",
            "--file-filter=D | *.txt *.md",
        ])
    );
    let c = open_file_dialog_command("kdialog", &f).unwrap();
    assert_eq!(c.args, args_of(&["--getopenfilename", "", "--title", "T", "*.txt *.md"]));
}

#[test]
fn select_folder_commands() {
    let f = FileDialog::new("T").with_path("/home");
    let c = select_folder_dialog_command("zenity", &f).unwrap();
    assert_eq!(
        c.args,
        args_of(&["--file-selection", "--directory", "--title", "T", "--filename", "/home"])
    );
    let c = select_folder_dialog_command("kdialog", &f).unwrap();
    assert_eq!(c.args, args_of(&["--getexistingdirectory", "/home", "--title", "T"]));
}

#[test]
fn multi_file_answer_splits_on_pipe() {
    let f = decode_file_list(true, true, "a.txt|b.txt\n", '|').unwrap();
    assert_eq!(f, vec!["a.txt".to_string(), "b.txt".to_string()]);
}

#[test]
fn empty_multi_file_answer_declines() {
    assert_eq!(decode_file_list(true, true, "\n", '|'), None);
    assert_eq!(decode_file_list(true, false, "a.txt", '|'), None);
    assert_eq!(decode_file_list(false, false, "", '|'), None);
}

#[test]
fn kdialog_multi_file_answer_splits_on_space() {
    let f = decode_file_list(true, true, "a.txt b.txt", ' ').unwrap();
    assert_eq!(f, vec!["a.txt".to_string(), "b.txt".to_string()]);
}

#[test]
fn console_open_and_save_choices() {
    assert_eq!(console_open_choice("  \n"), None);
    assert_eq!(console_open_choice(" pick.txt \n"), Some(vec!["pick.txt".to_string()]));
    assert_eq!(console_save_choice("\n", "/tmp/d.txt"), "/tmp/d.txt");
    assert_eq!(console_save_choice(" other.txt ", "/tmp/d.txt"), "other.txt");
}

#[test]
fn color_commands_seed_default() {
    let c = ColorChooser::new("T")
        .with_default_color(DefaultColorValue::RGB([255, 0, 0]));
    let cmd = color_chooser_command("zenity", &c).unwrap();
    assert_eq!(
        cmd.args,
        args_of(&["--color-selection", "--title", "T", "--color", "#ff0000"])
    );
    let cmd = color_chooser_command("kdialog", &c).unwrap();
    assert_eq!(cmd.args, args_of(&["--getcolor", "--default", "#ff0000", "--title", "T"]));
}

#[test]
fn zenity_color_answers() {
    assert_eq!(
        decode_zenity_color(true, true, "#ff0000\n"),
        Some(("#ff0000".to_string(), [255, 0, 0]))
    );
    assert_eq!(
        decode_zenity_color(true, true, "rgb(1, 2, 3)"),
        Some(("#010203".to_string(), [1, 2, 3]))
    );
    assert_eq!(
        decode_zenity_color(true, true, "rgb(300,2,x)"),
        Some(("#000200".to_string(), [0, 2, 0]))
    );
    assert_eq!(
        decode_zenity_color(true, true, "bogus"),
        Some(("#000000".to_string(), [0, 0, 0]))
    );
    assert_eq!(decode_zenity_color(true, false, "#ff0000"), None);
    assert_eq!(decode_zenity_color(true, true, "#ff00"), None);
}

#[test]
fn kdialog_color_answers() {
    assert_eq!(
        decode_kdialog_color(true, true, "#abcdef\n"),
        Some(("#abcdef".to_string(), [171, 205, 239]))
    );
    assert_eq!(decode_kdialog_color(true, true, "abcdef"), None);
    assert_eq!(decode_kdialog_color(false, true, "#abcdef"), None);
}

#[test]
fn console_color_answers() {
    assert_eq!(
        console_color_choice("\n", "#010203", [1, 2, 3]),
        Some(("#010203".to_string(), [1, 2, 3]))
    );
    assert_eq!(
        console_color_choice("#00ff00\n", "#010203", [1, 2, 3]),
        Some(("#00ff00".to_string(), [0, 255, 0]))
    );
    assert_eq!(console_color_choice("red", "#010203", [1, 2, 3]), None);
    assert_eq!(console_color_choice("##fffff", "#010203", [1, 2, 3]), None);
}

#[test]
fn notification_commands_probe_in_order() {
    let n = Notification::new("T", "M");
    let c = notification_command(true, true, true, &n).unwrap();
    assert_eq!(c.program, "notify-send");
    assert_eq!(c.args, args_of(&["T", "M"]));
    let c = notification_command(false, true, true, &n).unwrap();
    assert_eq!(c.program, "zenity");
    assert_eq!(c.args, args_of(&["--notification", "--text", "T: M"]));
    let c = notification_command(false, false, true, &n).unwrap();
    assert_eq!(c.program, "kdialog");
    assert_eq!(c.args, args_of(&["--passivepopup", "M", "5", "--title", "T"]));
    assert!(notification_command(false, false, false, &n).is_none());
}
