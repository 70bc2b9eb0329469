//! The Unix adapter's logic: which dialog tool to use, the exact command
//! line for each tool and dialog kind, and how each tool's exit status and
//! standard output decode into the canonical results.
//!
//! Spawning the tool is I/O and stays outside the library; the functions
//! here take the probe results and the spawned process's outcome as plain
//! values.

use vstd::prelude::*;

use crate::color;
use crate::text;
use crate::ColorChooser;
use crate::FileDialog;
use crate::InputBox;
use crate::MessageBox;
use crate::MessageBoxIcon;
use crate::Notification;
use crate::OkCancel;
use crate::YesNo;
use crate::YesNoCancel;

verus! {

/// A program name with its argument list, ready to spawn.
pub struct ToolCommand {
    pub program: String,
    pub args: Vec<String>,
}

/// Pick the dialog tool: the first of `zenity`, `kdialog`, `Xdialog`,
/// `dialog` that is installed, and the console fallback when none is.
pub fn detect_dialog_program(
    have_zenity: bool,
    have_kdialog: bool,
    have_xdialog: bool,
    have_dialog: bool,
) -> (r: &'static str)
    ensures
        have_zenity ==> r@ == "zenity"@,
        !have_zenity && have_kdialog ==> r@ == "kdialog"@,
        !have_zenity && !have_kdialog && have_xdialog ==> r@ == "Xdialog"@,
        !have_zenity && !have_kdialog && !have_xdialog && have_dialog ==> r@ == "dialog"@,
        !have_zenity && !have_kdialog && !have_xdialog && !have_dialog ==> r@ == "console"@,
{
    if have_zenity {
        "zenity"
    } else if have_kdialog {
        "kdialog"
    } else if have_xdialog {
        "Xdialog"
    } else if have_dialog {
        "dialog"
    } else {
        "console"
    }
}

/// The four tool names are pairwise different strings.
proof fn tool_names_distinct()
    ensures
        "zenity"@ != "kdialog"@,
        "zenity"@ != "Xdialog"@,
        "zenity"@ != "dialog"@,
        "kdialog"@ != "Xdialog"@,
        "kdialog"@ != "dialog"@,
        "Xdialog"@ != "dialog"@,
{
    reveal_strlit("zenity");
    reveal_strlit("kdialog");
    reveal_strlit("Xdialog");
    reveal_strlit("dialog");
    assert("zenity"@.len() == 6);
    assert("kdialog"@.len() == 7);
    assert("Xdialog"@.len() == 7);
    assert("dialog"@.len() == 6);
    assert("zenity"@[0] == 'z' && "dialog"@[0] == 'd');
    assert("kdialog"@[0] == 'k' && "Xdialog"@[0] == 'X');
}

/// The icon name `kdialog` expects.
pub open spec fn kdialog_icon(icon: MessageBoxIcon) -> Seq<char> {
    match icon {
        MessageBoxIcon::Info => "dialog-information"@,
        MessageBoxIcon::Warning => "dialog-warning"@,
        MessageBoxIcon::Error => "dialog-error"@,
        MessageBoxIcon::Question => "dialog-question"@,
    }
}

fn kdialog_icon_exec(icon: MessageBoxIcon) -> (r: &'static str)
    ensures
        r@ == kdialog_icon(icon),
{
    match icon {
        MessageBoxIcon::Info => "dialog-information",
        MessageBoxIcon::Warning => "dialog-warning",
        MessageBoxIcon::Error => "dialog-error",
        MessageBoxIcon::Question => "dialog-question",
    }
}

/// The command that shows a plain message box, per tool; `None` when the
/// console fallback is in effect.
#[verifier::rlimit(30)]
pub fn message_box_ok_command(program: &str, msg_box: &MessageBox) -> (r: Option<ToolCommand>)
    ensures
        ({
            let t = msg_box.spec_title();
            let m = msg_box.spec_message();
            let i = msg_box.spec_icon();
            &&& program@ == "zenity"@ ==> (match r {
                Some(c) => c.program@ == "zenity"@ && text::strings_view(c.args@) == seq![
                    "--info"@,
                    "--title"@,
                    t,
                    "--text"@,
                    m,
                    "--icon-name"@,
                    i.spec_str(),
                ],
                None => false,
            })
            &&& program@ == "kdialog"@ ==> (match r {
                Some(c) => c.program@ == "kdialog"@ && text::strings_view(c.args@) == seq![
                    "--msgbox"@,
                    m,
                    "--title"@,
                    t,
                    "--icon"@,
                    kdialog_icon(i),
                ],
                None => false,
            })
            &&& program@ == "Xdialog"@ ==> (match r {
                Some(c) => c.program@ == "Xdialog"@ && text::strings_view(c.args@) == seq![
                    "--msgbox"@,
                    m,
                    "0"@,
                    "0"@,
                    "--title"@,
                    t,
                ],
                None => false,
            })
            &&& program@ == "dialog"@ ==> (match r {
                Some(c) => c.program@ == "dialog"@ && text::strings_view(c.args@) == seq![
                    "--msgbox"@,
                    m,
                    "0"@,
                    "0"@,
                    "--title"@,
                    t,
                ],
                None => false,
            })
            &&& (program@ != "zenity"@ && program@ != "kdialog"@ && program@ != "Xdialog"@
                && program@ != "dialog"@) ==> r is None
        }),
{
    proof {
        tool_names_distinct();
    }
    let title = msg_box.title();
    let message = msg_box.message();
    if text::eq_str(program, "zenity") {
        let mut args: Vec<String> = Vec::new();
        args.push("--info".to_owned());
        args.push("--title".to_owned());
        args.push(title.to_owned());
        args.push("--text".to_owned());
        args.push(message.to_owned());
        args.push("--icon-name".to_owned());
        args.push(msg_box.icon().to_str().to_owned());
        proof {
            assert(text::strings_view(args@) =~= seq![
                "--info"@,
                "--title"@,
                msg_box.spec_title(),
                "--text"@,
                msg_box.spec_message(),
                "--icon-name"@,
                msg_box.spec_icon().spec_str(),
            ]);
        }
        Some(ToolCommand { program: "zenity".to_owned(), args })
    } else if text::eq_str(program, "kdialog") {
        let mut args: Vec<String> = Vec::new();
        args.push("--msgbox".to_owned());
        args.push(message.to_owned());
        args.push("--title".to_owned());
        args.push(title.to_owned());
        args.push("--icon".to_owned());
        args.push(kdialog_icon_exec(msg_box.icon()).to_owned());
        proof {
            assert(text::strings_view(args@) =~= seq![
                "--msgbox"@,
                msg_box.spec_message(),
                "--title"@,
                msg_box.spec_title(),
                "--icon"@,
                kdialog_icon(msg_box.spec_icon()),
            ]);
        }
        Some(ToolCommand { program: "kdialog".to_owned(), args })
    } else if text::eq_str(program, "Xdialog") {
        let mut args: Vec<String> = Vec::new();
        args.push("--msgbox".to_owned());
        args.push(message.to_owned());
        args.push("0".to_owned());
        args.push("0".to_owned());
        args.push("--title".to_owned());
        args.push(title.to_owned());
        proof {
            assert(text::strings_view(args@) =~= seq![
                "--msgbox"@,
                msg_box.spec_message(),
                "0"@,
                "0"@,
                "--title"@,
                msg_box.spec_title(),
            ]);
        }
        Some(ToolCommand { program: "Xdialog".to_owned(), args })
    } else if text::eq_str(program, "dialog") {
        let mut args: Vec<String> = Vec::new();
        args.push("--msgbox".to_owned());
        args.push(message.to_owned());
        args.push("0".to_owned());
        args.push("0".to_owned());
        args.push("--title".to_owned());
        args.push(title.to_owned());
        proof {
            assert(text::strings_view(args@) =~= seq![
                "--msgbox"@,
                msg_box.spec_message(),
                "0"@,
                "0"@,
                "--title"@,
                msg_box.spec_title(),
            ]);
        }
        Some(ToolCommand { program: "dialog".to_owned(), args })
    } else {
        None
    }
}

/// `"TRUE"` or `"FALSE"`, as zenity's radiolist wants its default marks.
pub open spec fn tf(b: bool) -> Seq<char> {
    if b {
        "TRUE"@
    } else {
        "FALSE"@
    }
}

fn tf_exec(b: bool) -> (r: &'static str)
    ensures
        r@ == tf(b),
{
    if b {
        "TRUE"
    } else {
        "FALSE"
    }
}

/// The command that asks an ok/cancel question, per tool; `None` when the
/// console fallback is in effect.
#[verifier::rlimit(30)]
pub fn message_box_ok_cancel_command(program: &str, msg_box: &MessageBox, default: OkCancel) -> (r:
    Option<ToolCommand>)
    ensures
        ({
            let t = msg_box.spec_title();
            let m = msg_box.spec_message();
            let i = msg_box.spec_icon();
            &&& program@ == "zenity"@ ==> (match r {
                Some(c) => c.program@ == "zenity"@ && text::strings_view(c.args@) == seq![
                    "--question"@,
                    "--title"@,
                    t,
                    "--text"@,
                    m,
                    "--icon-name"@,
                    i.spec_str(),
                    (if default == OkCancel::Cancel {
                        "--default-cancel"@
                    } else {
                        ""@
                    }),
                    "--ok-label=Ok"@,
                    "--cancel-label=Cancel"@,
                ],
                None => false,
            })
            &&& program@ == "kdialog"@ ==> (match r {
                Some(c) => c.program@ == "kdialog"@ && text::strings_view(c.args@) == seq![
                    "--yesno"@,
                    m,
                    "--title"@,
                    t,
                    "--yes-label"@,
                    "Ok"@,
                    "--no-label"@,
                    "Cancel"@,
                ],
                None => false,
            })
            &&& program@ == "Xdialog"@ ==> (match r {
                Some(c) => c.program@ == "Xdialog"@ && text::strings_view(c.args@) == seq![
                    "--yesno"@,
                    m,
                    "0"@,
                    "0"@,
                    "--title"@,
                    t,
                    "--yes-label"@,
                    "Ok"@,
                    "--no-label"@,
                    "Cancel"@,
                ],
                None => false,
            })
            &&& program@ == "dialog"@ ==> (match r {
                Some(c) => c.program@ == "dialog"@ && text::strings_view(c.args@) == seq![
                    "--yesno"@,
                    m,
                    "0"@,
                    "0"@,
                    "--title"@,
                    t,
                ],
                None => false,
            })
            &&& (program@ != "zenity"@ && program@ != "kdialog"@ && program@ != "Xdialog"@
                && program@ != "dialog"@) ==> r is None
        }),
{
    proof {
        tool_names_distinct();
    }
    let title = msg_box.title();
    let message = msg_box.message();
    if text::eq_str(program, "zenity") {
        let mut args: Vec<String> = Vec::new();
        args.push("--question".to_owned());
        args.push("--title".to_owned());
        args.push(title.to_owned());
        args.push("--text".to_owned());
        args.push(message.to_owned());
        args.push("--icon-name".to_owned());
        args.push(msg_box.icon().to_str().to_owned());
        if default == OkCancel::Cancel {
            args.push("--default-cancel".to_owned());
        } else {
            args.push("".to_owned());
        }
        args.push("--ok-label=Ok".to_owned());
        args.push("--cancel-label=Cancel".to_owned());
        proof {
            assert(text::strings_view(args@) =~= seq![
                "--question"@,
                "--title"@,
                msg_box.spec_title(),
                "--text"@,
                msg_box.spec_message(),
                "--icon-name"@,
                msg_box.spec_icon().spec_str(),
                (if default == OkCancel::Cancel {
                    "--default-cancel"@
                } else {
                    ""@
                }),
                "--ok-label=Ok"@,
                "--cancel-label=Cancel"@,
            ]);
        }
        Some(ToolCommand { program: "zenity".to_owned(), args })
    } else if text::eq_str(program, "kdialog") {
        let mut args: Vec<String> = Vec::new();
        args.push("--yesno".to_owned());
        args.push(message.to_owned());
        args.push("--title".to_owned());
        args.push(title.to_owned());
        args.push("--yes-label".to_owned());
        args.push("Ok".to_owned());
        args.push("--no-label".to_owned());
        args.push("Cancel".to_owned());
        proof {
            assert(text::strings_view(args@) =~= seq![
                "--yesno"@,
                msg_box.spec_message(),
                "--title"@,
                msg_box.spec_title(),
                "--yes-label"@,
                "Ok"@,
                "--no-label"@,
                "Cancel"@,
            ]);
        }
        Some(ToolCommand { program: "kdialog".to_owned(), args })
    } else if text::eq_str(program, "Xdialog") {
        let mut args: Vec<String> = Vec::new();
        args.push("--yesno".to_owned());
        args.push(message.to_owned());
        args.push("0".to_owned());
        args.push("0".to_owned());
        args.push("--title".to_owned());
        args.push(title.to_owned());
        args.push("--yes-label".to_owned());
        args.push("Ok".to_owned());
        args.push("--no-label".to_owned());
        args.push("Cancel".to_owned());
        proof {
            assert(text::strings_view(args@) =~= seq![
                "--yesno"@,
                msg_box.spec_message(),
                "0"@,
                "0"@,
                "--title"@,
                msg_box.spec_title(),
                "--yes-label"@,
                "Ok"@,
                "--no-label"@,
                "Cancel"@,
            ]);
        }
        Some(ToolCommand { program: "Xdialog".to_owned(), args })
    } else if text::eq_str(program, "dialog") {
        let mut args: Vec<String> = Vec::new();
        args.push("--yesno".to_owned());
        args.push(message.to_owned());
        args.push("0".to_owned());
        args.push("0".to_owned());
        args.push("--title".to_owned());
        args.push(title.to_owned());
        proof {
            assert(text::strings_view(args@) =~= seq![
                "--yesno"@,
                msg_box.spec_message(),
                "0"@,
                "0"@,
                "--title"@,
                msg_box.spec_title(),
            ]);
        }
        Some(ToolCommand { program: "dialog".to_owned(), args })
    } else {
        None
    }
}

/// The command that asks a yes/no question, per tool; `None` when the
/// console fallback is in effect.
#[verifier::rlimit(30)]
pub fn message_box_yes_no_command(program: &str, msg_box: &MessageBox, default: YesNo) -> (r:
    Option<ToolCommand>)
    ensures
        ({
            let t = msg_box.spec_title();
            let m = msg_box.spec_message();
            let i = msg_box.spec_icon();
            &&& program@ == "zenity"@ ==> (match r {
                Some(c) => c.program@ == "zenity"@ && text::strings_view(c.args@) == seq![
                    "--question"@,
                    "--title"@,
                    t,
                    "--text"@,
                    m,
                    "--icon-name"@,
                    i.spec_str(),
                    (if default == YesNo::No {
                        "--default-cancel"@
                    } else {
                        ""@
                    }),
                ],
                None => false,
            })
            &&& program@ == "kdialog"@ ==> (match r {
                Some(c) => c.program@ == "kdialog"@ && text::strings_view(c.args@) == seq![
                    "--yesno"@,
                    m,
                    "--title"@,
                    t,
                ],
                None => false,
            })
            &&& program@ == "Xdialog"@ ==> (match r {
                Some(c) => c.program@ == "Xdialog"@ && text::strings_view(c.args@) == seq![
                    "--yesno"@,
                    m,
                    "0"@,
                    "0"@,
                    "--title"@,
                    t,
                ],
                None => false,
            })
            &&& program@ == "dialog"@ ==> (match r {
                Some(c) => c.program@ == "dialog"@ && text::strings_view(c.args@) == seq![
                    "--yesno"@,
                    m,
                    "0"@,
                    "0"@,
                    "--title"@,
                    t,
                ],
                None => false,
            })
            &&& (program@ != "zenity"@ && program@ != "kdialog"@ && program@ != "Xdialog"@
                && program@ != "dialog"@) ==> r is None
        }),
{
    proof {
        tool_names_distinct();
    }
    let title = msg_box.title();
    let message = msg_box.message();
    if text::eq_str(program, "zenity") {
        let mut args: Vec<String> = Vec::new();
        args.push("--question".to_owned());
        args.push("--title".to_owned());
        args.push(title.to_owned());
        args.push("--text".to_owned());
        args.push(message.to_owned());
        args.push("--icon-name".to_owned());
        args.push(msg_box.icon().to_str().to_owned());
        if default == YesNo::No {
            args.push("--default-cancel".to_owned());
        } else {
            args.push("".to_owned());
        }
        proof {
            assert(text::strings_view(args@) =~= seq![
                "--question"@,
                "--title"@,
                msg_box.spec_title(),
                "--text"@,
                msg_box.spec_message(),
                "--icon-name"@,
                msg_box.spec_icon().spec_str(),
                (if default == YesNo::No {
                    "--default-cancel"@
                } else {
                    ""@
                }),
            ]);
        }
        Some(ToolCommand { program: "zenity".to_owned(), args })
    } else if text::eq_str(program, "kdialog") {
        let mut args: Vec<String> = Vec::new();
        args.push("--yesno".to_owned());
        args.push(message.to_owned());
        args.push("--title".to_owned());
        args.push(title.to_owned());
        proof {
            assert(text::strings_view(args@) =~= seq![
                "--yesno"@,
                msg_box.spec_message(),
                "--title"@,
                msg_box.spec_title(),
            ]);
        }
        Some(ToolCommand { program: "kdialog".to_owned(), args })
    } else if text::eq_str(program, "Xdialog") {
        let mut args: Vec<String> = Vec::new();
        args.push("--yesno".to_owned());
        args.push(message.to_owned());
        args.push("0".to_owned());
        args.push("0".to_owned());
        args.push("--title".to_owned());
        args.push(title.to_owned());
        proof {
            assert(text::strings_view(args@) =~= seq![
                "--yesno"@,
                msg_box.spec_message(),
                "0"@,
                "0"@,
                "--title"@,
                msg_box.spec_title(),
            ]);
        }
        Some(ToolCommand { program: "Xdialog".to_owned(), args })
    } else if text::eq_str(program, "dialog") {
        let mut args: Vec<String> = Vec::new();
        args.push("--yesno".to_owned());
        args.push(message.to_owned());
        args.push("0".to_owned());
        args.push("0".to_owned());
        args.push("--title".to_owned());
        args.push(title.to_owned());
        proof {
            assert(text::strings_view(args@) =~= seq![
                "--yesno"@,
                msg_box.spec_message(),
                "0"@,
                "0"@,
                "--title"@,
                msg_box.spec_title(),
            ]);
        }
        Some(ToolCommand { program: "dialog".to_owned(), args })
    } else {
        None
    }
}

/// The row label zenity's radiolist shows for each three-way answer.
pub open spec fn ync_label(d: YesNoCancel) -> Seq<char> {
    match d {
        YesNoCancel::Yes => "Yes"@,
        YesNoCancel::No => "No"@,
        YesNoCancel::Cancel => "Cancel"@,
    }
}

/// The command that asks a yes/no/cancel question: zenity shows a
/// radiolist whose `TRUE` mark sits on the default's row, kdialog has a
/// dedicated mode, and every other tool falls back to the console.
#[verifier::rlimit(30)]
pub fn message_box_yes_no_cancel_command(
    program: &str,
    msg_box: &MessageBox,
    default: YesNoCancel,
) -> (r: Option<ToolCommand>)
    ensures
        ({
            let t = msg_box.spec_title();
            let m = msg_box.spec_message();
            &&& program@ == "zenity"@ ==> (match r {
                Some(c) => c.program@ == "zenity"@ && text::strings_view(c.args@) == seq![
                    "--list"@,
                    "--radiolist"@,
                    "--title"@,
                    t,
                    "--text"@,
                    m,
                    "--column"@,
                    ""@,
                    "--column"@,
                    "Response"@,
                    tf(default == YesNoCancel::Yes),
                    "Yes"@,
                    tf(default == YesNoCancel::No),
                    "No"@,
                    tf(default == YesNoCancel::Cancel),
                    "Cancel"@,
                ],
                None => false,
            })
            &&& program@ == "kdialog"@ ==> (match r {
                Some(c) => c.program@ == "kdialog"@ && text::strings_view(c.args@) == seq![
                    "--yesnocancel"@,
                    m,
                    "--title"@,
                    t,
                ],
                None => false,
            })
            &&& (program@ != "zenity"@ && program@ != "kdialog"@) ==> r is None
        }),
{
    proof {
        tool_names_distinct();
    }
    let title = msg_box.title();
    let message = msg_box.message();
    if text::eq_str(program, "zenity") {
        let mut args: Vec<String> = Vec::new();
        args.push("--list".to_owned());
        args.push("--radiolist".to_owned());
        args.push("--title".to_owned());
        args.push(title.to_owned());
        args.push("--text".to_owned());
        args.push(message.to_owned());
        args.push("--column".to_owned());
        args.push("".to_owned());
        args.push("--column".to_owned());
        args.push("Response".to_owned());
        args.push(tf_exec(matches!(default, YesNoCancel::Yes)).to_owned());
        args.push("Yes".to_owned());
        args.push(tf_exec(matches!(default, YesNoCancel::No)).to_owned());
        args.push("No".to_owned());
        args.push(tf_exec(matches!(default, YesNoCancel::Cancel)).to_owned());
        args.push("Cancel".to_owned());
        proof {
            assert(text::strings_view(args@) =~= seq![
                "--list"@,
                "--radiolist"@,
                "--title"@,
                msg_box.spec_title(),
                "--text"@,
                msg_box.spec_message(),
                "--column"@,
                ""@,
                "--column"@,
                "Response"@,
                tf(default == YesNoCancel::Yes),
                "Yes"@,
                tf(default == YesNoCancel::No),
                "No"@,
                tf(default == YesNoCancel::Cancel),
                "Cancel"@,
            ]);
        }
        Some(ToolCommand { program: "zenity".to_owned(), args })
    } else if text::eq_str(program, "kdialog") {
        let mut args: Vec<String> = Vec::new();
        args.push("--yesnocancel".to_owned());
        args.push(message.to_owned());
        args.push("--title".to_owned());
        args.push(title.to_owned());
        proof {
            assert(text::strings_view(args@) =~= seq![
                "--yesnocancel"@,
                msg_box.spec_message(),
                "--title"@,
                msg_box.spec_title(),
            ]);
        }
        Some(ToolCommand { program: "kdialog".to_owned(), args })
    } else {
        None
    }
}

/// What zenity's radiolist answer means: the trimmed output names the
/// chosen row, anything else (or a failed run) cancels.
pub open spec fn spec_zenity_yes_no_cancel(ran: bool, success: bool, stdout: Seq<char>) -> YesNoCancel {
    if !(ran && success) {
        YesNoCancel::Cancel
    } else if text::trim_spec(stdout) == "Yes"@ {
        YesNoCancel::Yes
    } else if text::trim_spec(stdout) == "No"@ {
        YesNoCancel::No
    } else {
        YesNoCancel::Cancel
    }
}

/// Decode zenity's radiolist output; `ran` is whether the process could
/// be spawned at all.
pub fn decode_zenity_yes_no_cancel(ran: bool, success: bool, stdout: &str) -> (r: YesNoCancel)
    ensures
        r == spec_zenity_yes_no_cancel(ran, success, stdout@),
{
    if !(ran && success) {
        return YesNoCancel::Cancel;
    }
    let t = text::trim_str(stdout);
    if text::eq_str(t.as_str(), "Yes") {
        YesNoCancel::Yes
    } else if text::eq_str(t.as_str(), "No") {
        YesNoCancel::No
    } else {
        YesNoCancel::Cancel
    }
}

/// What kdialog's yes/no/cancel exit code means: 0 is yes, 1 is no,
/// anything else (or a failed run) cancels.
pub open spec fn spec_kdialog_yes_no_cancel(code: Option<i32>) -> YesNoCancel {
    match code {
        Some(c) => if c == 0 {
            YesNoCancel::Yes
        } else if c == 1 {
            YesNoCancel::No
        } else {
            YesNoCancel::Cancel
        },
        None => YesNoCancel::Cancel,
    }
}

/// Decode kdialog's `--yesnocancel` exit code.
pub fn decode_kdialog_yes_no_cancel(code: Option<i32>) -> (r: YesNoCancel)
    ensures
        r == spec_kdialog_yes_no_cancel(code),
{
    match code {
        Some(0) => YesNoCancel::Yes,
        Some(1) => YesNoCancel::No,
        _ => YesNoCancel::Cancel,
    }
}

/// zenity's arguments for a text prompt: entry text and hidden input are
/// asked for only when the request sets them.
pub open spec fn zenity_input_args(t: Seq<char>, m: Seq<char>, d: Seq<char>, pw: bool) -> Seq<
    Seq<char>,
> {
    seq!["--entry"@, "--title"@, t, "--text"@, m] + (if d.len() > 0 {
        seq!["--entry-text"@, d]
    } else {
        Seq::empty()
    }) + (if pw {
        seq!["--hide-text"@]
    } else {
        Seq::empty()
    })
}

/// kdialog's arguments for a text prompt.
pub open spec fn kdialog_input_args(t: Seq<char>, m: Seq<char>, d: Seq<char>, pw: bool) -> Seq<
    Seq<char>,
> {
    seq![(if pw { "--password"@ } else { "--inputbox"@ }), m, d, "--title"@, t]
}

/// The command that asks for a line of text, per tool; `None` when the
/// console fallback is in effect.
#[verifier::rlimit(30)]
pub fn input_box_command(program: &str, input: &InputBox) -> (r: Option<ToolCommand>)
    ensures
        ({
            let t = input.spec_title();
            let m = input.spec_message();
            let d = input.spec_default_or_empty();
            let pw = input.spec_is_password();
            &&& program@ == "zenity"@ ==> (match r {
                Some(c) => c.program@ == "zenity"@ && text::strings_view(c.args@)
                    == zenity_input_args(t, m, d, pw),
                None => false,
            })
            &&& program@ == "kdialog"@ ==> (match r {
                Some(c) => c.program@ == "kdialog"@ && text::strings_view(c.args@)
                    == kdialog_input_args(t, m, d, pw),
                None => false,
            })
            &&& (program@ != "zenity"@ && program@ != "kdialog"@) ==> r is None
        }),
{
    proof {
        tool_names_distinct();
        reveal_strlit("");
        assert(""@ =~= Seq::<char>::empty());
    }
    let title = input.title();
    let message = input.message();
    let default_value = match input.default_value() {
        Some(s) => s,
        None => "",
    };
    let is_password = input.is_password();
    if text::eq_str(program, "zenity") {
        let mut args: Vec<String> = Vec::new();
        args.push("--entry".to_owned());
        args.push("--title".to_owned());
        args.push(title.to_owned());
        args.push("--text".to_owned());
        args.push(message.to_owned());
        if default_value.unicode_len() > 0 {
            args.push("--entry-text".to_owned());
            args.push(default_value.to_owned());
        }
        if is_password {
            args.push("--hide-text".to_owned());
        }
        proof {
            assert(text::strings_view(args@) =~= zenity_input_args(
                input.spec_title(),
                input.spec_message(),
                input.spec_default_or_empty(),
                input.spec_is_password(),
            ));
        }
        Some(ToolCommand { program: "zenity".to_owned(), args })
    } else if text::eq_str(program, "kdialog") {
        let mut args: Vec<String> = Vec::new();
        if is_password {
            args.push("--password".to_owned());
        } else {
            args.push("--inputbox".to_owned());
        }
        args.push(message.to_owned());
        args.push(default_value.to_owned());
        args.push("--title".to_owned());
        args.push(title.to_owned());
        proof {
            assert(text::strings_view(args@) =~= kdialog_input_args(
                input.spec_title(),
                input.spec_message(),
                input.spec_default_or_empty(),
                input.spec_is_password(),
            ));
        }
        Some(ToolCommand { program: "kdialog".to_owned(), args })
    } else {
        None
    }
}

/// zenity's one-argument file filter: description, a separating bar, and
/// the space-joined glob patterns.
pub open spec fn zenity_filter_arg(desc: Seq<char>, patterns: Seq<Seq<char>>) -> Seq<char> {
    "--file-filter="@ + desc + " | "@ + text::join_seqs_sep(patterns, " "@)
}

fn build_zenity_filter_arg(dialog: &FileDialog) -> (r: String)
    ensures
        r@ == zenity_filter_arg(dialog.spec_filter_description(), dialog.spec_filter_patterns()),
{
    let mut r = String::from_str("--file-filter=");
    r.append(dialog.filter_description());
    r.append(" | ");
    let joined = text::join_with_str(dialog.filter_patterns(), " ");
    r.append(joined.as_str());
    r
}

/// zenity's arguments for a save dialog: seed file name and filter are
/// passed only when the request sets them.
pub open spec fn zenity_save_args(
    t: Seq<char>,
    p: Seq<char>,
    desc: Seq<char>,
    patterns: Seq<Seq<char>>,
) -> Seq<Seq<char>> {
    seq!["--file-selection"@, "--save"@, "--confirm-overwrite"@, "--title"@, t] + (if p.len() > 0 {
        seq!["--filename"@, p]
    } else {
        Seq::empty()
    }) + (if patterns.len() > 0 {
        seq![zenity_filter_arg(desc, patterns)]
    } else {
        Seq::empty()
    })
}

/// kdialog's arguments for a save dialog.
pub open spec fn kdialog_save_args(t: Seq<char>, p: Seq<char>, patterns: Seq<Seq<char>>) -> Seq<
    Seq<char>,
> {
    seq!["--getsavefilename"@, p, "--title"@, t] + (if patterns.len() > 0 {
        seq![text::join_seqs_sep(patterns, " "@)]
    } else {
        Seq::empty()
    })
}

/// The command that asks where to save a file, per tool; `None` when the
/// console fallback is in effect.
#[verifier::rlimit(30)]
pub fn save_file_dialog_command(program: &str, dialog: &FileDialog) -> (r: Option<ToolCommand>)
    ensures
        ({
            let t = dialog.spec_title();
            let p = dialog.spec_path();
            let desc = dialog.spec_filter_description();
            let pats = dialog.spec_filter_patterns();
            &&& program@ == "zenity"@ ==> (match r {
                Some(c) => c.program@ == "zenity"@ && text::strings_view(c.args@)
                    == zenity_save_args(t, p, desc, pats),
                None => false,
            })
            &&& program@ == "kdialog"@ ==> (match r {
                Some(c) => c.program@ == "kdialog"@ && text::strings_view(c.args@)
                    == kdialog_save_args(t, p, pats),
                None => false,
            })
            &&& (program@ != "zenity"@ && program@ != "kdialog"@) ==> r is None
        }),
{
    proof {
        tool_names_distinct();
    }
    let title = dialog.title();
    let path = dialog.path();
    if text::eq_str(program, "zenity") {
        let mut args: Vec<String> = Vec::new();
        args.push("--file-selection".to_owned());
        args.push("--save".to_owned());
        args.push("--confirm-overwrite".to_owned());
        args.push("--title".to_owned());
        args.push(title.to_owned());
        if path.unicode_len() > 0 {
            args.push("--filename".to_owned());
            args.push(path.to_owned());
        }
        if dialog.filter_patterns().len() > 0 {
            args.push(build_zenity_filter_arg(dialog));
        }
        proof {
            assert(text::strings_view(args@) =~= zenity_save_args(
                dialog.spec_title(),
                dialog.spec_path(),
                dialog.spec_filter_description(),
                dialog.spec_filter_patterns(),
            ));
        }
        Some(ToolCommand { program: "zenity".to_owned(), args })
    } else if text::eq_str(program, "kdialog") {
        let mut args: Vec<String> = Vec::new();
        args.push("--getsavefilename".to_owned());
        args.push(path.to_owned());
        args.push("--title".to_owned());
        args.push(title.to_owned());
        if dialog.filter_patterns().len() > 0 {
            let joined = text::join_with_str(dialog.filter_patterns(), " ");
            args.push(joined);
        }
        proof {
            assert(text::strings_view(args@) =~= kdialog_save_args(
                dialog.spec_title(),
                dialog.spec_path(),
                dialog.spec_filter_patterns(),
            ));
        }
        Some(ToolCommand { program: "kdialog".to_owned(), args })
    } else {
        None
    }
}

/// zenity's arguments for an open dialog: multiple selection, seed file
/// name and filter are passed only when the request sets them.
pub open spec fn zenity_open_args(
    t: Seq<char>,
    p: Seq<char>,
    desc: Seq<char>,
    patterns: Seq<Seq<char>>,
    multi: bool,
) -> Seq<Seq<char>> {
    seq!["--file-selection"@, "--title"@, t] + (if multi {
        seq!["--multiple"@]
    } else {
        Seq::empty()
    }) + (if p.len() > 0 {
        seq!["--filename"@, p]
    } else {
        Seq::empty()
    }) + (if patterns.len() > 0 {
        seq![zenity_filter_arg(desc, patterns)]
    } else {
        Seq::empty()
    })
}

/// kdialog's arguments for an open dialog.
pub open spec fn kdialog_open_args(t: Seq<char>, p: Seq<char>, patterns: Seq<Seq<char>>) -> Seq<
    Seq<char>,
> {
    seq!["--getopenfilename"@, p, "--title"@, t] + (if patterns.len() > 0 {
        seq![text::join_seqs_sep(patterns, " "@)]
    } else {
        Seq::empty()
    })
}

/// The command that asks which file(s) to open, per tool; `None` when the
/// console fallback is in effect.
#[verifier::rlimit(30)]
pub fn open_file_dialog_command(program: &str, dialog: &FileDialog) -> (r: Option<ToolCommand>)
    ensures
        ({
            let t = dialog.spec_title();
            let p = dialog.spec_path();
            let desc = dialog.spec_filter_description();
            let pats = dialog.spec_filter_patterns();
            let multi = dialog.spec_multiple_selection();
            &&& program@ == "zenity"@ ==> (match r {
                Some(c) => c.program@ == "zenity"@ && text::strings_view(c.args@)
                    == zenity_open_args(t, p, desc, pats, multi),
                None => false,
            })
            &&& program@ == "kdialog"@ ==> (match r {
                Some(c) => c.program@ == "kdialog"@ && text::strings_view(c.args@)
                    == kdialog_open_args(t, p, pats),
                None => false,
            })
            &&& (program@ != "zenity"@ && program@ != "kdialog"@) ==> r is None
        }),
{
    proof {
        tool_names_distinct();
    }
    let title = dialog.title();
    let path = dialog.path();
    if text::eq_str(program, "zenity") {
        let mut args: Vec<String> = Vec::new();
        args.push("--file-selection".to_owned());
        args.push("--title".to_owned());
        args.push(title.to_owned());
        if dialog.multiple_selection() {
            args.push("--multiple".to_owned());
        }
        if path.unicode_len() > 0 {
            args.push("--filename".to_owned());
            args.push(path.to_owned());
        }
        if dialog.filter_patterns().len() > 0 {
            args.push(build_zenity_filter_arg(dialog));
        }
        proof {
            assert(text::strings_view(args@) =~= zenity_open_args(
                dialog.spec_title(),
                dialog.spec_path(),
                dialog.spec_filter_description(),
                dialog.spec_filter_patterns(),
                dialog.spec_multiple_selection(),
            ));
        }
        Some(ToolCommand { program: "zenity".to_owned(), args })
    } else if text::eq_str(program, "kdialog") {
        let mut args: Vec<String> = Vec::new();
        args.push("--getopenfilename".to_owned());
        args.push(path.to_owned());
        args.push("--title".to_owned());
        args.push(title.to_owned());
        if dialog.filter_patterns().len() > 0 {
            let joined = text::join_with_str(dialog.filter_patterns(), " ");
            args.push(joined);
        }
        proof {
            assert(text::strings_view(args@) =~= kdialog_open_args(
                dialog.spec_title(),
                dialog.spec_path(),
                dialog.spec_filter_patterns(),
            ));
        }
        Some(ToolCommand { program: "kdialog".to_owned(), args })
    } else {
        None
    }
}

/// zenity's arguments for a folder picker.
pub open spec fn zenity_folder_args(t: Seq<char>, p: Seq<char>) -> Seq<Seq<char>> {
    seq!["--file-selection"@, "--directory"@, "--title"@, t] + (if p.len() > 0 {
        seq!["--filename"@, p]
    } else {
        Seq::empty()
    })
}

/// The command that asks for a folder, per tool; `None` when the console
/// fallback is in effect.
#[verifier::rlimit(30)]
pub fn select_folder_dialog_command(program: &str, dialog: &FileDialog) -> (r: Option<ToolCommand>)
    ensures
        ({
            let t = dialog.spec_title();
            let p = dialog.spec_path();
            &&& program@ == "zenity"@ ==> (match r {
                Some(c) => c.program@ == "zenity"@ && text::strings_view(c.args@)
                    == zenity_folder_args(t, p),
                None => false,
            })
            &&& program@ == "kdialog"@ ==> (match r {
                Some(c) => c.program@ == "kdialog"@ && text::strings_view(c.args@) == seq![
                    "--getexistingdirectory"@,
                    p,
                    "--title"@,
                    t,
                ],
                None => false,
            })
            &&& (program@ != "zenity"@ && program@ != "kdialog"@) ==> r is None
        }),
{
    proof {
        tool_names_distinct();
    }
    let title = dialog.title();
    let path = dialog.path();
    if text::eq_str(program, "zenity") {
        let mut args: Vec<String> = Vec::new();
        args.push("--file-selection".to_owned());
        args.push("--directory".to_owned());
        args.push("--title".to_owned());
        args.push(title.to_owned());
        if path.unicode_len() > 0 {
            args.push("--filename".to_owned());
            args.push(path.to_owned());
        }
        proof {
            assert(text::strings_view(args@) =~= zenity_folder_args(
                dialog.spec_title(),
                dialog.spec_path(),
            ));
        }
        Some(ToolCommand { program: "zenity".to_owned(), args })
    } else if text::eq_str(program, "kdialog") {
        let mut args: Vec<String> = Vec::new();
        args.push("--getexistingdirectory".to_owned());
        args.push(path.to_owned());
        args.push("--title".to_owned());
        args.push(title.to_owned());
        proof {
            assert(text::strings_view(args@) =~= seq![
                "--getexistingdirectory"@,
                dialog.spec_path(),
                "--title"@,
                dialog.spec_title(),
            ]);
        }
        Some(ToolCommand { program: "kdialog".to_owned(), args })
    } else {
        None
    }
}

/// The command that opens a color chooser seeded with the request's
/// default color, per tool; `None` when the console fallback is in
/// effect.
#[verifier::rlimit(30)]
pub fn color_chooser_command(program: &str, chooser: &ColorChooser) -> (r: Option<ToolCommand>)
    requires
        crate::color_value_wf(chooser.spec_default_color()),
    ensures
        ({
            let t = chooser.spec_title();
            let hex = color::spec_rgb_to_hex(crate::spec_default_rgb(chooser.spec_default_color()));
            &&& program@ == "zenity"@ ==> (match r {
                Some(c) => c.program@ == "zenity"@ && text::strings_view(c.args@) == seq![
                    "--color-selection"@,
                    "--title"@,
                    t,
                    "--color"@,
                    hex,
                ],
                None => false,
            })
            &&& program@ == "kdialog"@ ==> (match r {
                Some(c) => c.program@ == "kdialog"@ && text::strings_view(c.args@) == seq![
                    "--getcolor"@,
                    "--default"@,
                    hex,
                    "--title"@,
                    t,
                ],
                None => false,
            })
            &&& (program@ != "zenity"@ && program@ != "kdialog"@) ==> r is None
        }),
{
    proof {
        tool_names_distinct();
    }
    let title = chooser.title();
    let default_rgb = chooser.default_rgb();
    let default_hex = color::rgb_to_hex(&default_rgb);
    if text::eq_str(program, "zenity") {
        let mut args: Vec<String> = Vec::new();
        args.push("--color-selection".to_owned());
        args.push("--title".to_owned());
        args.push(title.to_owned());
        args.push("--color".to_owned());
        args.push(default_hex);
        proof {
            assert(text::strings_view(args@) =~= seq![
                "--color-selection"@,
                "--title"@,
                chooser.spec_title(),
                "--color"@,
                color::spec_rgb_to_hex(crate::spec_default_rgb(chooser.spec_default_color())),
            ]);
        }
        Some(ToolCommand { program: "zenity".to_owned(), args })
    } else if text::eq_str(program, "kdialog") {
        let mut args: Vec<String> = Vec::new();
        args.push("--getcolor".to_owned());
        args.push("--default".to_owned());
        args.push(default_hex);
        args.push("--title".to_owned());
        args.push(title.to_owned());
        proof {
            assert(text::strings_view(args@) =~= seq![
                "--getcolor"@,
                "--default"@,
                color::spec_rgb_to_hex(crate::spec_default_rgb(chooser.spec_default_color())),
                "--title"@,
                chooser.spec_title(),
            ]);
        }
        Some(ToolCommand { program: "kdialog".to_owned(), args })
    } else {
        None
    }
}

/// The command that posts a desktop notification: `notify-send` first,
/// then zenity, then kdialog; `None` means printing to the console.
#[verifier::rlimit(30)]
pub fn notification_command(
    have_notify_send: bool,
    have_zenity: bool,
    have_kdialog: bool,
    notification: &Notification,
) -> (r: Option<ToolCommand>)
    ensures
        ({
            let t = notification.spec_title();
            let m = notification.spec_message();
            &&& have_notify_send ==> (match r {
                Some(c) => c.program@ == "notify-send"@ && text::strings_view(c.args@) == seq![
                    t,
                    m,
                ],
                None => false,
            })
            &&& !have_notify_send && have_zenity ==> (match r {
                Some(c) => c.program@ == "zenity"@ && text::strings_view(c.args@) == seq![
                    "--notification"@,
                    "--text"@,
                    t + ": "@ + m,
                ],
                None => false,
            })
            &&& !have_notify_send && !have_zenity && have_kdialog ==> (match r {
                Some(c) => c.program@ == "kdialog"@ && text::strings_view(c.args@) == seq![
                    "--passivepopup"@,
                    m,
                    "5"@,
                    "--title"@,
                    t,
                ],
                None => false,
            })
            &&& !have_notify_send && !have_zenity && !have_kdialog ==> r is None
        }),
{
    let title = notification.title();
    let message = notification.message();
    if have_notify_send {
        let mut args: Vec<String> = Vec::new();
        args.push(title.to_owned());
        args.push(message.to_owned());
        proof {
            assert(text::strings_view(args@) =~= seq![
                notification.spec_title(),
                notification.spec_message(),
            ]);
        }
        Some(ToolCommand { program: "notify-send".to_owned(), args })
    } else if have_zenity {
        let mut text_arg = title.to_owned();
        text_arg.append(": ");
        text_arg.append(message);
        let mut args: Vec<String> = Vec::new();
        args.push("--notification".to_owned());
        args.push("--text".to_owned());
        args.push(text_arg);
        proof {
            assert(text::strings_view(args@) =~= seq![
                "--notification"@,
                "--text"@,
                notification.spec_title() + ": "@ + notification.spec_message(),
            ]);
        }
        Some(ToolCommand { program: "zenity".to_owned(), args })
    } else if have_kdialog {
        let mut args: Vec<String> = Vec::new();
        args.push("--passivepopup".to_owned());
        args.push(message.to_owned());
        args.push("5".to_owned());
        args.push("--title".to_owned());
        args.push(title.to_owned());
        proof {
            assert(text::strings_view(args@) =~= seq![
                "--passivepopup"@,
                notification.spec_message(),
                "5"@,
                "--title"@,
                notification.spec_title(),
            ]);
        }
        Some(ToolCommand { program: "kdialog".to_owned(), args })
    } else {
        None
    }
}

/// A tool's trimmed standard output, kept only when it ran and exited
/// successfully.
pub fn decode_output_text(ran: bool, success: bool, stdout: &str) -> (r: Option<String>)
    ensures
        match r {
            Some(t) => ran && success && t@ == text::trim_spec(stdout@),
            None => !(ran && success),
        },
{
    if ran && success {
        Some(text::trim_str(stdout))
    } else {
        None
    }
}

/// The selected paths: the trimmed output split at `sep`, or `None` when
/// the run failed or nothing came back.
pub fn decode_file_list(ran: bool, success: bool, stdout: &str, sep: char) -> (r: Option<
    Vec<String>,
>)
    ensures
        match r {
            Some(v) => ran && success && text::trim_spec(stdout@).len() > 0 && text::strings_view(
                v@,
            ) == text::split_spec(text::trim_spec(stdout@), sep),
            None => !(ran && success) || text::trim_spec(stdout@).len() == 0,
        },
{
    if !(ran && success) {
        return None;
    }
    let t = text::trim_str(stdout);
    if t.as_str().unicode_len() == 0 {
        return None;
    }
    Some(text::split_on_char(t.as_str(), sep))
}

/// Console fallback for an open dialog: a nonempty trimmed line is the
/// one chosen file; an empty line declines.
pub fn console_open_choice(line: &str) -> (r: Option<Vec<String>>)
    ensures
        match r {
            Some(v) => text::trim_spec(line@).len() > 0 && text::strings_view(v@) == seq![
                text::trim_spec(line@),
            ],
            None => text::trim_spec(line@).len() == 0,
        },
{
    let t = text::trim_str(line);
    if t.as_str().unicode_len() == 0 {
        None
    } else {
        let mut v: Vec<String> = Vec::new();
        v.push(t);
        proof {
            assert(text::strings_view(v@) =~= seq![text::trim_spec(line@)]);
        }
        Some(v)
    }
}

/// Console fallback for save and folder dialogs: an empty trimmed line
/// accepts the provided default, anything else is the answer.
pub fn console_save_choice(line: &str, default_path: &str) -> (r: String)
    ensures
        r@ == (if text::trim_spec(line@).len() == 0 {
            default_path@
        } else {
            text::trim_spec(line@)
        }),
{
    let t = text::trim_str(line);
    if t.as_str().unicode_len() == 0 {
        default_path.to_owned()
    } else {
        t
    }
}

/// An affirmative exit status means the affirmative button: `Okay` exactly
/// when the tool ran and exited successfully.
pub fn decode_status_ok_cancel(status: Option<bool>) -> (r: OkCancel)
    ensures
        (r == OkCancel::Okay) <==> (status == Some(true)),
{
    match status {
        Some(true) => OkCancel::Okay,
        _ => OkCancel::Cancel,
    }
}

/// `Yes` exactly when the tool ran and exited successfully.
pub fn decode_status_yes_no(status: Option<bool>) -> (r: YesNo)
    ensures
        (r == YesNo::Yes) <==> (status == Some(true)),
{
    match status {
        Some(true) => YesNo::Yes,
        _ => YesNo::No,
    }
}

/// The value of a decimal field, with anything malformed reading as 0.
pub open spec fn dec_or_zero(s: Seq<char>) -> u8 {
    if text::is_u8_dec(s) {
        text::dec_val(text::dec_body(s)) as u8
    } else {
        0
    }
}

fn parse_u8_or_zero(s: &str) -> (r: u8)
    ensures
        r == dec_or_zero(s@),
{
    match text::parse_u8_dec(s) {
        Some(v) => v,
        None => 0,
    }
}

/// The triple read from the comma-separated fields of an `rgb(r,g,b)`
/// answer; a missing or malformed field reads as 0.
pub open spec fn spec_rgb_from_parts(parts: Seq<Seq<char>>) -> Seq<u8> {
    if parts.len() >= 3 {
        seq![
            dec_or_zero(text::trim_spec(parts[0])),
            dec_or_zero(text::trim_spec(parts[1])),
            dec_or_zero(text::trim_spec(parts[2])),
        ]
    } else {
        seq![0u8, 0u8, 0u8]
    }
}

/// What zenity's color answer means.  A `#...` answer is read as hex when
/// six characters follow the hashes (a shorter one is malformed and
/// declines); an `rgb(...)` answer is read field by field; anything else
/// reads as black.  The hex string returned is always re-rendered from
/// the triple.
pub open spec fn spec_zenity_color(ran: bool, success: bool, stdout: Seq<char>) -> Option<
    (Seq<char>, Seq<u8>),
> {
    if !(ran && success) {
        None
    } else {
        let c = text::trim_spec(stdout);
        if c.len() > 0 && c[0] == '#' {
            if color::strip_hashes(c).len() >= 6 {
                let rgb = color::spec_hex_to_rgb(c);
                Some((color::spec_rgb_to_hex(rgb), rgb))
            } else {
                None
            }
        } else if c.len() >= 3 && c.subrange(0, 3) == "rgb"@ {
            let inner = text::strip_suffix_chars(text::strip_prefixes(c, "rgb("@), ')');
            let rgb = spec_rgb_from_parts(text::split_spec(inner, ','));
            Some((color::spec_rgb_to_hex(rgb), rgb))
        } else {
            Some((color::spec_rgb_to_hex(seq![0u8, 0u8, 0u8]), seq![0u8, 0u8, 0u8]))
        }
    }
}

/// Decode zenity's `--color-selection` output.
pub fn decode_zenity_color(ran: bool, success: bool, stdout: &str) -> (r: Option<
    (String, [u8; 3]),
>)
    ensures
        match r {
            Some(p) => spec_zenity_color(ran, success, stdout@) == Some((p.0@, p.1@)),
            None => spec_zenity_color(ran, success, stdout@) is None,
        },
{
    if !(ran && success) {
        return None;
    }
    let t = text::trim_str(stdout);
    let ts = t.as_str();
    proof {
        reveal_strlit("rgb");
        reveal_strlit("rgb(");
        assert("rgb"@.len() == 3);
        assert("rgb("@.len() == 4);
    }
    if color::first_char_is_hash(ts) {
        if color::has_six_hex_chars(ts) {
            let rgb = color::hex_to_rgb(ts);
            let hex = color::rgb_to_hex(&rgb);
            Some((hex, rgb))
        } else {
            None
        }
    } else if text::starts_with_str(ts, "rgb") {
        let inner = text::strip_suffix_chars_str(text::strip_prefixes_str(ts, "rgb("), ')');
        let parts = text::split_on_char(inner, ',');
        let ghost sparts = text::split_spec(
            text::strip_suffix_chars(text::strip_prefixes(text::trim_spec(stdout@), "rgb("@), ')'),
            ',',
        );
        let rgb: [u8; 3] = if parts.len() >= 3 {
            let c0 = text::trim_str(parts[0].as_str());
            let c1 = text::trim_str(parts[1].as_str());
            let c2 = text::trim_str(parts[2].as_str());
            let v = [
                parse_u8_or_zero(c0.as_str()),
                parse_u8_or_zero(c1.as_str()),
                parse_u8_or_zero(c2.as_str()),
            ];
            proof {
                assert(text::strings_view(parts@)[0] == parts@[0]@);
                assert(text::strings_view(parts@)[1] == parts@[1]@);
                assert(text::strings_view(parts@)[2] == parts@[2]@);
                assert(v@ =~= spec_rgb_from_parts(sparts));
            }
            v
        } else {
            let v: [u8; 3] = [0, 0, 0];
            proof {
                assert(v@ =~= spec_rgb_from_parts(sparts));
            }
            v
        };
        let hex = color::rgb_to_hex(&rgb);
        Some((hex, rgb))
    } else {
        let rgb: [u8; 3] = [0, 0, 0];
        let hex = color::rgb_to_hex(&rgb);
        proof {
            assert(rgb@ =~= seq![0u8, 0u8, 0u8]);
        }
        Some((hex, rgb))
    }
}

/// What kdialog's color answer means: a `#...` answer with six characters
/// after the hashes is the chosen color, returned as given; anything else
/// declines.
pub open spec fn spec_kdialog_color(ran: bool, success: bool, stdout: Seq<char>) -> Option<
    (Seq<char>, Seq<u8>),
> {
    if !(ran && success) {
        None
    } else {
        let c = text::trim_spec(stdout);
        if c.len() > 0 && c[0] == '#' && color::strip_hashes(c).len() >= 6 {
            Some((c, color::spec_hex_to_rgb(c)))
        } else {
            None
        }
    }
}

/// Decode kdialog's `--getcolor` output.
pub fn decode_kdialog_color(ran: bool, success: bool, stdout: &str) -> (r: Option<
    (String, [u8; 3]),
>)
    ensures
        match r {
            Some(p) => spec_kdialog_color(ran, success, stdout@) == Some((p.0@, p.1@)),
            None => spec_kdialog_color(ran, success, stdout@) is None,
        },
{
    if !(ran && success) {
        return None;
    }
    let t = text::trim_str(stdout);
    if color::first_char_is_hash(t.as_str()) && color::has_six_hex_chars(t.as_str()) {
        let rgb = color::hex_to_rgb(t.as_str());
        Some((t, rgb))
    } else {
        None
    }
}

/// What the console's color answer means: an empty line accepts the
/// provided default, a `#rrggbb` line (exactly seven characters) is
/// parsed, anything else declines.
pub open spec fn spec_console_color(
    line: Seq<char>,
    default_hex: Seq<char>,
    default_rgb: Seq<u8>,
) -> Option<(Seq<char>, Seq<u8>)> {
    let t = text::trim_spec(line);
    if t.len() == 0 {
        Some((default_hex, default_rgb))
    } else if t.len() == 7 && t[0] == '#' && color::strip_hashes(t).len() >= 6 {
        Some((t, color::spec_hex_to_rgb(t)))
    } else {
        None
    }
}

/// Console fallback for the color chooser.
pub fn console_color_choice(line: &str, default_hex: &str, default_rgb: [u8; 3]) -> (r: Option<
    (String, [u8; 3]),
>)
    ensures
        match r {
            Some(p) => spec_console_color(line@, default_hex@, default_rgb@) == Some(
                (p.0@, p.1@),
            ),
            None => spec_console_color(line@, default_hex@, default_rgb@) is None,
        },
{
    let t = text::trim_str(line);
    let len = t.as_str().unicode_len();
    if len == 0 {
        return Some((default_hex.to_owned(), default_rgb));
    }
    if len == 7 && color::first_char_is_hash(t.as_str()) && color::has_six_hex_chars(t.as_str()) {
        let rgb = color::hex_to_rgb(t.as_str());
        Some((t, rgb))
    } else {
        None
    }
}

/// Asking for a given default marks exactly that answer's radiolist row,
/// and zenity echoing that row's label decodes back to the same answer:
/// the default-button mapping is consistent in both directions.
pub proof fn lemma_zenity_yes_no_cancel_round_trip(d: YesNoCancel)
    ensures
        (tf(d == YesNoCancel::Yes) == "TRUE"@) <==> (ync_label(d) == "Yes"@),
        (tf(d == YesNoCancel::No) == "TRUE"@) <==> (ync_label(d) == "No"@),
        (tf(d == YesNoCancel::Cancel) == "TRUE"@) <==> (ync_label(d) == "Cancel"@),
        spec_zenity_yes_no_cancel(true, true, ync_label(d)) == d,
{
    reveal_strlit("TRUE");
    reveal_strlit("FALSE");
    reveal_strlit("Yes");
    reveal_strlit("No");
    reveal_strlit("Cancel");
    assert("TRUE"@.len() == 4 && "FALSE"@.len() == 5);
    assert("Yes"@.len() == 3 && "No"@.len() == 2 && "Cancel"@.len() == 6);
    let l = ync_label(d);
    assert(text::trim_spec(l) == l) by {
        assert(!text::is_space(l[0]));
        assert(!text::is_space(l[l.len() - 1]));
    }
}

/// The console answer line, trimmed, lowercases to `y`.
pub open spec fn console_yes(line: Seq<char>) -> bool {
    text::trim_spec(line) == seq!['y'] || text::trim_spec(line) == seq!['Y']
}

/// The console answer line, trimmed, lowercases to `n`.
pub open spec fn console_no(line: Seq<char>) -> bool {
    text::trim_spec(line) == seq!['n'] || text::trim_spec(line) == seq!['N']
}

fn line_is(line: &str, lower: char, upper: char) -> (r: bool)
    ensures
        r == (text::trim_spec(line@) == seq![lower] || text::trim_spec(line@) == seq![upper]),
{
    let t = text::trim_str(line);
    let r = t.as_str().unicode_len() == 1 && (t.as_str().get_char(0) == lower
        || t.as_str().get_char(0) == upper);
    proof {
        if r {
            if t@[0] == lower {
                assert(t@ =~= seq![lower]);
            } else {
                assert(t@ =~= seq![upper]);
            }
        } else {
            assert(t@ != seq![lower] && t@ != seq![upper]) by {
                if t@ == seq![lower] || t@ == seq![upper] {
                    assert(t@.len() == 1);
                }
            }
        }
    }
    r
}

/// Console fallback for ok/cancel: `Okay` exactly when the answer line,
/// trimmed, lowercases to `y`.
pub fn decode_console_ok_cancel(line: &str) -> (r: OkCancel)
    ensures
        (r == OkCancel::Okay) <==> console_yes(line@),
{
    if line_is(line, 'y', 'Y') {
        OkCancel::Okay
    } else {
        OkCancel::Cancel
    }
}

/// Console fallback for yes/no: `Yes` exactly when the answer line,
/// trimmed, lowercases to `y`.
pub fn decode_console_yes_no(line: &str) -> (r: YesNo)
    ensures
        (r == YesNo::Yes) <==> console_yes(line@),
{
    if line_is(line, 'y', 'Y') {
        YesNo::Yes
    } else {
        YesNo::No
    }
}

/// Console fallback for yes/no/cancel: `y` means `Yes`, `n` means `No`,
/// anything else cancels.
pub fn decode_console_yes_no_cancel(line: &str) -> (r: YesNoCancel)
    ensures
        r == (if console_yes(line@) {
            YesNoCancel::Yes
        } else if console_no(line@) {
            YesNoCancel::No
        } else {
            YesNoCancel::Cancel
        }),
{
    if line_is(line, 'y', 'Y') {
        YesNoCancel::Yes
    } else if line_is(line, 'n', 'N') {
        YesNoCancel::No
    } else {
        YesNoCancel::Cancel
    }
}

} // verus!
