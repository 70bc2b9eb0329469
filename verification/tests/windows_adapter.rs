use tinyfiledialogs::windows::{
    build_filter_string, colorref_to_rgb, decode_ok_cancel_response, decode_yes_no_cancel_response,
    decode_yes_no_response, input_box_prompt, input_box_response, message_box_ok_cancel_flags,
    message_box_ok_flags, message_box_yes_no_cancel_flags, message_box_yes_no_flags,
    open_file_multi_paths, rgb_to_colorref, split_nul_segments, IDCANCEL, IDNO, IDOK, IDYES,
};
use tinyfiledialogs::{FileDialog, InputBox, MessageBoxIcon, OkCancel, YesNo, YesNoCancel};

#[test]
fn flag_words() {
    assert_eq!(message_box_ok_flags(MessageBoxIcon::Info), 0x40);
    assert_eq!(message_box_ok_flags(MessageBoxIcon::Error), 0x10);
    assert_eq!(message_box_ok_cancel_flags(MessageBoxIcon::Question, OkCancel::Cancel), 0x01 | 0x20 | 0x100);
    assert_eq!(message_box_ok_cancel_flags(MessageBoxIcon::Info, OkCancel::Okay), 0x01 | 0x40);
    assert_eq!(message_box_yes_no_flags(MessageBoxIcon::Warning, YesNo::No), 0x04 | 0x30 | 0x100);
    assert_eq!(
        message_box_yes_no_cancel_flags(MessageBoxIcon::Info, YesNoCancel::Cancel),
        0x03 | 0x40 | 0x200
    );
}

#[test]
fn response_decoders() {
    assert_eq!(decode_ok_cancel_response(IDOK), OkCancel::Okay);
    assert_eq!(decode_ok_cancel_response(IDCANCEL), OkCancel::Cancel);
    assert_eq!(decode_ok_cancel_response(0), OkCancel::Cancel);
    assert_eq!(decode_yes_no_response(IDYES), YesNo::Yes);
    assert_eq!(decode_yes_no_response(IDNO), YesNo::No);
    assert_eq!(decode_yes_no_cancel_response(IDYES), YesNoCancel::Yes);
    assert_eq!(decode_yes_no_cancel_response(IDNO), YesNoCancel::No);
    assert_eq!(decode_yes_no_cancel_response(IDCANCEL), YesNoCancel::Cancel);
}

#[test]
fn input_box_prompt_and_response() {
    let i = InputBox::new("T", "M").with_default("abc");
    let (caption, prompt) = input_box_prompt(&i);
    assert_eq!(caption, "T - Input");
    assert_eq!(prompt, "M\n\n[Default: abc]");
    let p = InputBox::new("T", "M").password(true);
    let (caption, prompt) = input_box_prompt(&p);
    assert_eq!(caption, "T - Password");
    assert_eq!(prompt, "M\n\n[Default: ]");
    assert_eq!(input_box_response(IDOK, &i), Some("abc".to_string()));
    assert_eq!(input_box_response(IDCANCEL, &i), None);
    assert_eq!(input_box_response(IDOK, &p), Some("".to_string()));
}

#[test]
fn filter_string_layout() {
    let f = FileDialog::new("T").with_filter(&["*.txt", "*.md"], "Docs");
    assert_eq!(build_filter_string(&f), "Docs\0*.txt;*.md\0All Files\0*.*\0\0");
    let f = FileDialog::new("T");
    assert_eq!(build_filter_string(&f), "All Files\0*.*\0\0");
    let f = FileDialog::new("T").with_filter(&["*.txt"], "");
    assert_eq!(build_filter_string(&f), "All Files\0*.*\0\0");
}

#[test]
fn multi_selection_paths() {
    let single = vec!["C:\\dir\\x.txt".to_string()];
    assert_eq!(open_file_multi_paths(&single), single);
    let multi = vec!["C:\\dir".to_string(), "a.txt".to_string(), "b.txt".to_string()];
    assert_eq!(
        open_file_multi_paths(&multi),
        vec!["C:\\dir\\a.txt".to_string(), "C:\\dir\\b.txt".to_string()]
    );
}

#[test]
fn buffer_segmentation() {
    // "ab\0c\0\0..." holds the segments "ab" and "c".
    let buf = [97u16, 98, 0, 99, 0, 0, 7, 7];
    assert_eq!(split_nul_segments(&buf), vec![vec![97u16, 98], vec![99u16]]);
    // A buffer that starts with NUL holds nothing.
    assert_eq!(split_nul_segments(&[0u16, 97]), Vec::<Vec<u16>>::new());
    // A buffer with no NUL at all is one segment.
    assert_eq!(split_nul_segments(&[97u16, 98]), vec![vec![97u16, 98]]);
    assert_eq!(split_nul_segments(&[]), Vec::<Vec<u16>>::new());
}

#[test]
fn colorref_packing() {
    assert_eq!(rgb_to_colorref(&[1, 2, 3]), 1 + 256 * 2 + 65536 * 3);
    assert_eq!(colorref_to_rgb(1 + 256 * 2 + 65536 * 3), [1, 2, 3]);
    assert_eq!(colorref_to_rgb(rgb_to_colorref(&[255, 128, 7])), [255, 128, 7]);
    assert_eq!(rgb_to_colorref(&[255, 255, 255]), 0x00FF_FFFF);
}
