//! The macOS adapter's logic: AppleScript sources for each dialog kind,
//! built from sanitized request text, and the parsers that read the
//! interpreter's standard output back into canonical results.
//!
//! Running the interpreter is I/O and stays outside the library; the
//! functions here take its trimmed output (or `None` for a failed or
//! silent run) as a plain value.

use vstd::prelude::*;

use crate::color;
use crate::text;
use crate::ColorChooser;
use crate::FileDialog;
use crate::InputBox;
use crate::MessageBox;
use crate::MessageBoxIcon;
use crate::Notification;
use crate::OkCancel;
use crate::YesNo;
use crate::YesNoCancel;

verus! {

/// One character's expansion under AppleScript sanitization: backslashes
/// and double quotes gain a backslash, everything else stays itself.
pub open spec fn as_escape(c: char) -> Seq<char> {
    if c == '\\' {
        seq!['\\', '\\']
    } else if c == '"' {
        seq!['\\', '"']
    } else {
        seq![c]
    }
}

pub open spec fn spec_sanitize_applescript(s: Seq<char>) -> Seq<char> {
    text::escape_chars(|c: char| as_escape(c), s)
}

/// Sanitize text bound for an AppleScript string literal: escape
/// backslashes and double quotes.
pub fn sanitize_for_applescript(s: &str) -> (r: String)
    ensures
        r@ == spec_sanitize_applescript(s@),
{
    let len = s.unicode_len();
    let mut out = String::new();
    let mut i: usize = 0;
    while i < len
        invariant
            len == s@.len(),
            0 <= i <= len,
            out@ == spec_sanitize_applescript(s@.subrange(0, i as int)),
        decreases len - i,
    {
        let c = s.get_char(i);
        if c == '\\' {
            out.append("\\\\");
        } else if c == '"' {
            out.append("\\\"");
        } else {
            out.append(s.substring_char(i, i + 1));
        }
        proof {
            reveal_strlit("\\\\");
            reveal_strlit("\\\"");
            text::lemma_escape_chars_push(
                |c: char| as_escape(c),
                s@.subrange(0, i as int),
                c,
            );
            assert(s@.subrange(0, i + 1) =~= s@.subrange(0, i as int).push(s@[i as int]));
            assert(s@.subrange(i as int, i + 1) =~= seq![c]);
            assert(out@ =~= spec_sanitize_applescript(s@.subrange(0, i + 1)));
        }
        i = i + 1;
    }
    proof {
        assert(s@.subrange(0, len as int) =~= s@);
    }
    out
}

/// Sanitized text holds no unescaped double quote: every `"` in it is
/// immediately preceded by a backslash, so it cannot close the AppleScript
/// string literal it is interpolated into.
pub proof fn lemma_sanitize_applescript_no_unescaped_quote(s: Seq<char>)
    ensures
        forall|i: int|
            0 <= i < spec_sanitize_applescript(s).len() && #[trigger] spec_sanitize_applescript(
                s,
            )[i] == '"' ==> i > 0 && spec_sanitize_applescript(s)[i - 1] == '\\',
        spec_sanitize_applescript(s).len() > 0 ==> spec_sanitize_applescript(s)[0] != '"',
    decreases s.len(),
{
    let e = spec_sanitize_applescript(s);
    if s.len() > 0 {
        let c = s[0];
        let b = as_escape(c);
        let t = spec_sanitize_applescript(s.drop_first());
        lemma_sanitize_applescript_no_unescaped_quote(s.drop_first());
        assert(e == b + t);
        assert(b[0] != '"');
        assert forall|i: int| 0 <= i < e.len() && #[trigger] e[i] == '"' implies i > 0 && e[i - 1]
            == '\\' by {
            if i < b.len() {
                assert(e[i] == b[i]);
                if i == 1 {
                    assert(b.len() == 2);
                    assert(e[0] == b[0]);
                    assert(b[0] == '\\');
                }
            } else {
                assert(e[i] == t[i - b.len()]);
                assert(t[i - b.len()] == '"');
                assert(t[0] != '"');
                assert(i - b.len() > 0);
                assert(t[i - b.len() - 1] == '\\');
                assert(e[i - 1] == t[i - 1 - b.len()]);
            }
        }
    }
}

/// The icon clause of a `display dialog` call.
pub open spec fn icon_param(icon: MessageBoxIcon) -> Seq<char> {
    match icon {
        MessageBoxIcon::Info => ""@,
        MessageBoxIcon::Warning => "with icon caution"@,
        MessageBoxIcon::Error => "with icon stop"@,
        MessageBoxIcon::Question => "with icon note"@,
    }
}

fn icon_param_exec(icon: MessageBoxIcon) -> (r: &'static str)
    ensures
        r@ == icon_param(icon),
{
    match icon {
        MessageBoxIcon::Info => "",
        MessageBoxIcon::Warning => "with icon caution",
        MessageBoxIcon::Error => "with icon stop",
        MessageBoxIcon::Question => "with icon note",
    }
}

/// The AppleScript source for a plain message box.
pub fn message_box_ok_script(msg_box: &MessageBox) -> (r: String)
    ensures
        r@ == "display dialog \""@ + spec_sanitize_applescript(msg_box.spec_message())
            + "\" with title \""@ + spec_sanitize_applescript(msg_box.spec_title())
            + "\" buttons {\"OK\"} default button \"OK\" "@ + icon_param(msg_box.spec_icon()),
{
    let title = sanitize_for_applescript(msg_box.title());
    let message = sanitize_for_applescript(msg_box.message());
    let mut s = String::from_str("display dialog \"");
    s.append(message.as_str());
    s.append("\" with title \"");
    s.append(title.as_str());
    s.append("\" buttons {\"OK\"} default button \"OK\" ");
    s.append(icon_param_exec(msg_box.icon()));
    proof {
        assert(s@ =~= "display dialog \""@ + spec_sanitize_applescript(msg_box.spec_message())
            + "\" with title \""@ + spec_sanitize_applescript(msg_box.spec_title())
            + "\" buttons {\"OK\"} default button \"OK\" "@ + icon_param(msg_box.spec_icon()));
    }
    s
}

/// The quoted default-button name for an ok/cancel dialog.
pub open spec fn ok_cancel_button(d: OkCancel) -> Seq<char> {
    match d {
        OkCancel::Okay => "\"OK\""@,
        OkCancel::Cancel => "\"Cancel\""@,
    }
}

/// The AppleScript source for an ok/cancel question.
pub fn message_box_ok_cancel_script(msg_box: &MessageBox, default: OkCancel) -> (r: String)
    ensures
        r@ == "display dialog \""@ + spec_sanitize_applescript(msg_box.spec_message())
            + "\" with title \""@ + spec_sanitize_applescript(msg_box.spec_title())
            + "\" buttons {\"Cancel\", \"OK\"} default button "@ + ok_cancel_button(default)
            + " "@ + icon_param(msg_box.spec_icon()),
{
    let title = sanitize_for_applescript(msg_box.title());
    let message = sanitize_for_applescript(msg_box.message());
    let default_button = match default {
        OkCancel::Okay => "\"OK\"",
        OkCancel::Cancel => "\"Cancel\"",
    };
    let mut s = String::from_str("display dialog \"");
    s.append(message.as_str());
    s.append("\" with title \"");
    s.append(title.as_str());
    s.append("\" buttons {\"Cancel\", \"OK\"} default button ");
    s.append(default_button);
    s.append(" ");
    s.append(icon_param_exec(msg_box.icon()));
    proof {
        assert(s@ =~= "display dialog \""@ + spec_sanitize_applescript(msg_box.spec_message())
            + "\" with title \""@ + spec_sanitize_applescript(msg_box.spec_title())
            + "\" buttons {\"Cancel\", \"OK\"} default button "@ + ok_cancel_button(default)
            + " "@ + icon_param(msg_box.spec_icon()));
    }
    s
}

/// The quoted default-button name for a yes/no dialog.
pub open spec fn yes_no_button(d: YesNo) -> Seq<char> {
    match d {
        YesNo::Yes => "\"Yes\""@,
        YesNo::No => "\"No\""@,
    }
}

/// The AppleScript source for a yes/no question.
pub fn message_box_yes_no_script(msg_box: &MessageBox, default: YesNo) -> (r: String)
    ensures
        r@ == "display dialog \""@ + spec_sanitize_applescript(msg_box.spec_message())
            + "\" with title \""@ + spec_sanitize_applescript(msg_box.spec_title())
            + "\" buttons {\"No\", \"Yes\"} default button "@ + yes_no_button(default) + " "@
            + icon_param(msg_box.spec_icon()),
{
    let title = sanitize_for_applescript(msg_box.title());
    let message = sanitize_for_applescript(msg_box.message());
    let default_button = match default {
        YesNo::Yes => "\"Yes\"",
        YesNo::No => "\"No\"",
    };
    let mut s = String::from_str("display dialog \"");
    s.append(message.as_str());
    s.append("\" with title \"");
    s.append(title.as_str());
    s.append("\" buttons {\"No\", \"Yes\"} default button ");
    s.append(default_button);
    s.append(" ");
    s.append(icon_param_exec(msg_box.icon()));
    proof {
        assert(s@ =~= "display dialog \""@ + spec_sanitize_applescript(msg_box.spec_message())
            + "\" with title \""@ + spec_sanitize_applescript(msg_box.spec_title())
            + "\" buttons {\"No\", \"Yes\"} default button "@ + yes_no_button(default) + " "@
            + icon_param(msg_box.spec_icon()));
    }
    s
}

/// The quoted default-button name for a yes/no/cancel dialog.
pub open spec fn yes_no_cancel_button(d: YesNoCancel) -> Seq<char> {
    match d {
        YesNoCancel::Yes => "\"Yes\""@,
        YesNoCancel::No => "\"No\""@,
        YesNoCancel::Cancel => "\"Cancel\""@,
    }
}

/// The AppleScript source for a yes/no/cancel question.
pub fn message_box_yes_no_cancel_script(msg_box: &MessageBox, default: YesNoCancel) -> (r: String)
    ensures
        r@ == "display dialog \""@ + spec_sanitize_applescript(msg_box.spec_message())
            + "\" with title \""@ + spec_sanitize_applescript(msg_box.spec_title())
            + "\" buttons {\"Cancel\", \"No\", \"Yes\"} default button "@ + yes_no_cancel_button(
            default,
        ) + " "@ + icon_param(msg_box.spec_icon()),
{
    let title = sanitize_for_applescript(msg_box.title());
    let message = sanitize_for_applescript(msg_box.message());
    let default_button = match default {
        YesNoCancel::Yes => "\"Yes\"",
        YesNoCancel::No => "\"No\"",
        YesNoCancel::Cancel => "\"Cancel\"",
    };
    let mut s = String::from_str("display dialog \"");
    s.append(message.as_str());
    s.append("\" with title \"");
    s.append(title.as_str());
    s.append("\" buttons {\"Cancel\", \"No\", \"Yes\"} default button ");
    s.append(default_button);
    s.append(" ");
    s.append(icon_param_exec(msg_box.icon()));
    proof {
        assert(s@ =~= "display dialog \""@ + spec_sanitize_applescript(msg_box.spec_message())
            + "\" with title \""@ + spec_sanitize_applescript(msg_box.spec_title())
            + "\" buttons {\"Cancel\", \"No\", \"Yes\"} default button "@ + yes_no_cancel_button(
            default,
        ) + " "@ + icon_param(msg_box.spec_icon()));
    }
    s
}

/// The `with hidden answer` clause of a password prompt.
pub open spec fn hidden_clause(pw: bool) -> Seq<char> {
    if pw {
        "with hidden answer"@
    } else {
        ""@
    }
}

/// The AppleScript source for a text or password prompt.
pub fn input_box_script(input: &InputBox) -> (r: String)
    ensures
        r@ == "display dialog \""@ + spec_sanitize_applescript(input.spec_message())
            + "\" with title \""@ + spec_sanitize_applescript(input.spec_title())
            + "\" default answer \""@ + spec_sanitize_applescript(input.spec_default_or_empty())
            + "\" buttons {\"Cancel\", \"OK\"} default button \"OK\" "@ + hidden_clause(
            input.spec_is_password(),
        ),
{
    proof {
        reveal_strlit("");
        assert(""@ =~= Seq::<char>::empty());
    }
    let title = sanitize_for_applescript(input.title());
    let message = sanitize_for_applescript(input.message());
    let default = match input.default_value() {
        Some(s) => sanitize_for_applescript(s),
        None => sanitize_for_applescript(""),
    };
    let hidden = if input.is_password() {
        "with hidden answer"
    } else {
        ""
    };
    let mut s = String::from_str("display dialog \"");
    s.append(message.as_str());
    s.append("\" with title \"");
    s.append(title.as_str());
    s.append("\" default answer \"");
    s.append(default.as_str());
    s.append("\" buttons {\"Cancel\", \"OK\"} default button \"OK\" ");
    s.append(hidden);
    proof {
        assert(s@ =~= "display dialog \""@ + spec_sanitize_applescript(input.spec_message())
            + "\" with title \""@ + spec_sanitize_applescript(input.spec_title())
            + "\" default answer \""@ + spec_sanitize_applescript(input.spec_default_or_empty())
            + "\" buttons {\"Cancel\", \"OK\"} default button \"OK\" "@ + hidden_clause(
            input.spec_is_password(),
        ));
    }
    s
}

/// Index of the last `/` in a path, or -1 when it has none.
pub open spec fn last_slash(p: Seq<char>) -> int
    decreases p.len(),
{
    if p.len() == 0 {
        -1
    } else if p[p.len() - 1] == '/' {
        p.len() - 1
    } else {
        last_slash(p.drop_last())
    }
}

/// Everything before the last `/`, empty when there is none.
pub open spec fn path_parent(p: Seq<char>) -> Seq<char> {
    if last_slash(p) < 0 {
        Seq::empty()
    } else {
        p.subrange(0, last_slash(p))
    }
}

/// Everything after the last `/`, the whole path when there is none.
pub open spec fn path_file_name(p: Seq<char>) -> Seq<char> {
    if last_slash(p) < 0 {
        p
    } else {
        p.subrange(last_slash(p) + 1, p.len() as int)
    }
}

proof fn lemma_last_slash_at(p: Seq<char>, b: int)
    requires
        0 <= b <= p.len(),
        forall|k: int| b <= k < p.len() ==> p[k] != '/',
        b == 0 || p[b - 1] == '/',
    ensures
        last_slash(p) == b - 1,
    decreases p.len() - b,
{
    if b < p.len() {
        lemma_last_slash_at(p.drop_last(), b);
    }
}

/// Split a POSIX path at its last `/` into parent and file name.
pub fn split_path(p: &str) -> (r: (String, String))
    ensures
        r.0@ == path_parent(p@),
        r.1@ == path_file_name(p@),
{
    let len = p.unicode_len();
    let mut b: usize = len;
    while b > 0 && p.get_char(b - 1) != '/'
        invariant
            len == p@.len(),
            0 <= b <= len,
            forall|k: int| b <= k < len ==> p@[k] != '/',
        decreases b,
    {
        b = b - 1;
    }
    proof {
        lemma_last_slash_at(p@, b as int);
    }
    if b == 0 {
        proof {
            assert(p@.subrange(0, 0) =~= Seq::<char>::empty());
            assert(p@.subrange(0, len as int) =~= p@);
        }
        (String::new(), p.to_owned())
    } else {
        (p.substring_char(0, b - 1).to_owned(), p.substring_char(b, len).to_owned())
    }
}

/// The quoted, sanitized file types named by the glob patterns: each
/// pattern loses its leading `*.` copies.
pub open spec fn quoted_types(patterns: Seq<Seq<char>>) -> Seq<Seq<char>> {
    Seq::new(
        patterns.len(),
        |k: int| "\""@ + spec_sanitize_applescript(text::strip_prefixes(patterns[k], "*."@))
            + "\""@,
    )
}

/// The `of type {...}` clause naming the accepted file types.
pub open spec fn type_filter_clause(patterns: Seq<Seq<char>>) -> Seq<char> {
    "of type {"@ + text::join_seqs_sep(quoted_types(patterns), ", "@) + "}"@
}

fn build_type_filter(dialog: &FileDialog) -> (r: String)
    ensures
        r@ == type_filter_clause(dialog.spec_filter_patterns()),
{
    proof {
        reveal_strlit("*.");
        assert("*."@.len() == 2);
    }
    let patterns = dialog.filter_patterns();
    let n = patterns.len();
    let mut quoted: Vec<String> = Vec::new();
    let mut k: usize = 0;
    while k < n
        invariant
            n == patterns@.len(),
            0 <= k <= n,
            quoted@.len() == k,
            forall|j: int| 0 <= j < k ==> (#[trigger] quoted@[j])@ == quoted_types(
                text::strings_view(patterns@),
            )[j],
        decreases n - k,
    {
        proof {
            reveal_strlit("*.");
            assert("*."@.len() == 2);
        }
        let ext = text::strip_prefixes_str(patterns[k].as_str(), "*.");
        let esc = sanitize_for_applescript(ext);
        let mut q = String::from_str("\"");
        q.append(esc.as_str());
        q.append("\"");
        proof {
            assert(text::strings_view(patterns@)[k as int] == patterns@[k as int]@);
        }
        quoted.push(q);
        k = k + 1;
    }
    let joined = text::join_with_str(quoted.as_slice(), ", ");
    let mut r = String::from_str("of type {");
    r.append(joined.as_str());
    r.append("}");
    proof {
        assert(text::strings_view(quoted@) =~= quoted_types(text::strings_view(patterns@)));
    }
    r
}

/// The `default location` clause built from a path's parent directory.
pub open spec fn parent_location_clause(p: Seq<char>) -> Seq<char> {
    if p.len() == 0 {
        Seq::empty()
    } else {
        "default location \""@ + spec_sanitize_applescript(path_parent(p)) + "\""@
    }
}

/// The `default name` clause built from a path's file name.
pub open spec fn default_name_clause(p: Seq<char>) -> Seq<char> {
    if p.len() == 0 {
        Seq::empty()
    } else {
        "default name \""@ + spec_sanitize_applescript(path_file_name(p)) + "\""@
    }
}

/// The `default location` clause built from the whole path.
pub open spec fn location_clause(p: Seq<char>) -> Seq<char> {
    if p.len() == 0 {
        Seq::empty()
    } else {
        "default location \""@ + spec_sanitize_applescript(p) + "\""@
    }
}

/// The clause naming the accepted types, empty without patterns.
pub open spec fn filter_clause_opt(patterns: Seq<Seq<char>>) -> Seq<char> {
    if patterns.len() == 0 {
        Seq::empty()
    } else {
        type_filter_clause(patterns)
    }
}

/// The AppleScript source for a save dialog: prompt, then the optional
/// location, name and type clauses read from the seed path and filter.
/// `posix_path` is the request's seed path already in POSIX form.
pub fn save_file_dialog_script(dialog: &FileDialog, posix_path: &str) -> (r: String)
    ensures
        r@ == "choose file name with prompt \""@ + spec_sanitize_applescript(dialog.spec_title())
            + "\" "@ + parent_location_clause(posix_path@) + " "@ + default_name_clause(
            posix_path@,
        ) + " "@ + filter_clause_opt(dialog.spec_filter_patterns()),
{
    proof {
        reveal_strlit("");
        assert(""@ =~= Seq::<char>::empty());
    }
    let title = sanitize_for_applescript(dialog.title());
    let len = posix_path.unicode_len();
    let mut location = String::new();
    let mut name = String::new();
    if len > 0 {
        let (parent, file_name) = split_path(posix_path);
        location.append("default location \"");
        let esc_parent = sanitize_for_applescript(parent.as_str());
        location.append(esc_parent.as_str());
        location.append("\"");
        name.append("default name \"");
        let esc_name = sanitize_for_applescript(file_name.as_str());
        name.append(esc_name.as_str());
        name.append("\"");
    }
    let filter = if dialog.filter_patterns().len() > 0 {
        build_type_filter(dialog)
    } else {
        String::new()
    };
    let mut s = String::from_str("choose file name with prompt \"");
    s.append(title.as_str());
    s.append("\" ");
    s.append(location.as_str());
    s.append(" ");
    s.append(name.as_str());
    s.append(" ");
    s.append(filter.as_str());
    proof {
        assert(s@ =~= "choose file name with prompt \""@ + spec_sanitize_applescript(
            dialog.spec_title(),
        ) + "\" "@ + parent_location_clause(posix_path@) + " "@ + default_name_clause(posix_path@)
            + " "@ + filter_clause_opt(dialog.spec_filter_patterns()));
    }
    s
}

/// The `with multiple selections allowed` clause.
pub open spec fn multiple_clause(multi: bool) -> Seq<char> {
    if multi {
        "with multiple selections allowed"@
    } else {
        ""@
    }
}

/// The AppleScript source for an open dialog, binding the chosen files to
/// `theResult` for the follow-up listing script.
pub fn open_file_dialog_script(dialog: &FileDialog, posix_path: &str) -> (r: String)
    ensures
        r@ == "set theResult to choose file with prompt \""@ + spec_sanitize_applescript(
            dialog.spec_title(),
        ) + "\" "@ + location_clause(posix_path@) + " "@ + multiple_clause(
            dialog.spec_multiple_selection(),
        ) + " "@ + filter_clause_opt(dialog.spec_filter_patterns()),
{
    proof {
        reveal_strlit("");
        assert(""@ =~= Seq::<char>::empty());
    }
    let title = sanitize_for_applescript(dialog.title());
    let len = posix_path.unicode_len();
    let mut location = String::new();
    if len > 0 {
        location.append("default location \"");
        let esc_path = sanitize_for_applescript(posix_path);
        location.append(esc_path.as_str());
        location.append("\"");
    }
    let multiple = if dialog.multiple_selection() {
        "with multiple selections allowed"
    } else {
        ""
    };
    let filter = if dialog.filter_patterns().len() > 0 {
        build_type_filter(dialog)
    } else {
        String::new()
    };
    let mut s = String::from_str("set theResult to choose file with prompt \"");
    s.append(title.as_str());
    s.append("\" ");
    s.append(location.as_str());
    s.append(" ");
    s.append(multiple);
    s.append(" ");
    s.append(filter.as_str());
    proof {
        assert(s@ =~= "set theResult to choose file with prompt \""@ + spec_sanitize_applescript(
            dialog.spec_title(),
        ) + "\" "@ + location_clause(posix_path@) + " "@ + multiple_clause(
            dialog.spec_multiple_selection(),
        ) + " "@ + filter_clause_opt(dialog.spec_filter_patterns()));
    }
    s
}

/// The AppleScript source for a folder picker.
pub fn select_folder_dialog_script(dialog: &FileDialog, posix_path: &str) -> (r: String)
    ensures
        r@ == "choose folder with prompt \""@ + spec_sanitize_applescript(dialog.spec_title())
            + "\" "@ + location_clause(posix_path@),
{
    proof {
        reveal_strlit("");
        assert(""@ =~= Seq::<char>::empty());
    }
    let title = sanitize_for_applescript(dialog.title());
    let len = posix_path.unicode_len();
    let mut location = String::new();
    if len > 0 {
        location.append("default location \"");
        let esc_path = sanitize_for_applescript(posix_path);
        location.append(esc_path.as_str());
        location.append("\"");
    }
    let mut s = String::from_str("choose folder with prompt \"");
    s.append(title.as_str());
    s.append("\" ");
    s.append(location.as_str());
    proof {
        assert(s@ =~= "choose folder with prompt \""@ + spec_sanitize_applescript(
            dialog.spec_title(),
        ) + "\" "@ + location_clause(posix_path@));
    }
    s
}

/// The script that turns an alias answer into a POSIX path.
pub fn posix_path_script(alias: &str) -> (r: String)
    ensures
        r@ == "POSIX path of "@ + alias@,
{
    let mut s = String::from_str("POSIX path of ");
    s.append(alias);
    s
}

/// The AppleScript source for the color chooser, seeded with the request's
/// default color scaled to AppleScript's 16-bit channels.
pub fn color_chooser_script(chooser: &ColorChooser) -> (r: String)
    requires
        crate::color_value_wf(chooser.spec_default_color()),
    ensures
        ({
            let rgb = crate::spec_default_rgb(chooser.spec_default_color());
            r@ == "set theColor to choose color default color {"@ + text::dec_str(
                rgb[0] as int * 257,
            ) + ", "@ + text::dec_str(rgb[1] as int * 257) + ", "@ + text::dec_str(
                rgb[2] as int * 257,
            ) + "} with prompt \""@ + spec_sanitize_applescript(chooser.spec_title()) + "\""@
        }),
{
    let title = sanitize_for_applescript(chooser.title());
    let rgb = chooser.default_rgb();
    let r16 = text::u16_to_dec((rgb[0] as u16) * 257);
    let g16 = text::u16_to_dec((rgb[1] as u16) * 257);
    let b16 = text::u16_to_dec((rgb[2] as u16) * 257);
    let mut s = String::from_str("set theColor to choose color default color {");
    s.append(r16.as_str());
    s.append(", ");
    s.append(g16.as_str());
    s.append(", ");
    s.append(b16.as_str());
    s.append("} with prompt \"");
    s.append(title.as_str());
    s.append("\"");
    proof {
        let srgb = crate::spec_default_rgb(chooser.spec_default_color());
        assert(s@ =~= "set theColor to choose color default color {"@ + text::dec_str(
            srgb[0] as int * 257,
        ) + ", "@ + text::dec_str(srgb[1] as int * 257) + ", "@ + text::dec_str(
            srgb[2] as int * 257,
        ) + "} with prompt \""@ + spec_sanitize_applescript(chooser.spec_title()) + "\""@);
    }
    s
}

/// The AppleScript source for a notification, with the optional subtitle
/// and sound clauses.
pub fn notification_script(notification: &Notification) -> (r: String)
    ensures
        ({
            let subtitle = match notification.spec_subtitle() {
                Some(s) => "subtitle \""@ + spec_sanitize_applescript(s) + "\""@,
                None => Seq::<char>::empty(),
            };
            let sound = match notification.spec_sound() {
                Some(s) => "sound name \""@ + spec_sanitize_applescript(s) + "\""@,
                None => Seq::<char>::empty(),
            };
            r@ == "display notification \""@ + spec_sanitize_applescript(
                notification.spec_message(),
            ) + "\" with title \""@ + spec_sanitize_applescript(notification.spec_title())
                + "\" "@ + subtitle + " "@ + sound
        }),
{
    let title = sanitize_for_applescript(notification.title());
    let message = sanitize_for_applescript(notification.message());
    let mut subtitle = String::new();
    if let Some(sub) = notification.subtitle() {
        subtitle.append("subtitle \"");
        let esc = sanitize_for_applescript(sub);
        subtitle.append(esc.as_str());
        subtitle.append("\"");
    }
    let mut sound = String::new();
    if let Some(snd) = notification.sound() {
        sound.append("sound name \"");
        let esc = sanitize_for_applescript(snd);
        sound.append(esc.as_str());
        sound.append("\"");
    }
    let mut s = String::from_str("display notification \"");
    s.append(message.as_str());
    s.append("\" with title \"");
    s.append(title.as_str());
    s.append("\" ");
    s.append(subtitle.as_str());
    s.append(" ");
    s.append(sound.as_str());
    proof {
        let sub = match notification.spec_subtitle() {
            Some(t) => "subtitle \""@ + spec_sanitize_applescript(t) + "\""@,
            None => Seq::<char>::empty(),
        };
        let snd = match notification.spec_sound() {
            Some(t) => "sound name \""@ + spec_sanitize_applescript(t) + "\""@,
            None => Seq::<char>::empty(),
        };
        assert(s@ =~= "display notification \""@ + spec_sanitize_applescript(
            notification.spec_message(),
        ) + "\" with title \""@ + spec_sanitize_applescript(notification.spec_title()) + "\" "@
            + sub + " "@ + snd);
    }
    s
}

/// The view of an optional interpreter output.
pub open spec fn opt_view(r: Option<&str>) -> Option<Seq<char>> {
    match r {
        Some(s) => Some(s@),
        None => None,
    }
}

/// `Okay` exactly when the interpreter answered and named the OK button.
pub fn decode_ok_cancel_script(result: Option<&str>) -> (r: OkCancel)
    ensures
        (r == OkCancel::Okay) <==> (match opt_view(result) {
            Some(res) => text::contains_seq(res, "button returned:OK"@),
            None => false,
        }),
{
    match result {
        Some(res) => {
            if text::contains_str(res, "button returned:OK") {
                OkCancel::Okay
            } else {
                OkCancel::Cancel
            }
        },
        None => OkCancel::Cancel,
    }
}

/// `Yes` exactly when the interpreter answered and named the Yes button.
pub fn decode_yes_no_script(result: Option<&str>) -> (r: YesNo)
    ensures
        (r == YesNo::Yes) <==> (match opt_view(result) {
            Some(res) => text::contains_seq(res, "button returned:Yes"@),
            None => false,
        }),
{
    match result {
        Some(res) => {
            if text::contains_str(res, "button returned:Yes") {
                YesNo::Yes
            } else {
                YesNo::No
            }
        },
        None => YesNo::No,
    }
}

/// What a three-button answer means: the button named in the output, with
/// a missing or unrecognized answer cancelling.
pub open spec fn spec_yes_no_cancel_script(result: Option<Seq<char>>) -> YesNoCancel {
    match result {
        Some(res) => if text::contains_seq(res, "button returned:Yes"@) {
            YesNoCancel::Yes
        } else if text::contains_seq(res, "button returned:No"@) {
            YesNoCancel::No
        } else {
            YesNoCancel::Cancel
        },
        None => YesNoCancel::Cancel,
    }
}

/// Decode a three-button answer.
pub fn decode_yes_no_cancel_script(result: Option<&str>) -> (r: YesNoCancel)
    ensures
        r == spec_yes_no_cancel_script(opt_view(result)),
{
    match result {
        Some(res) => {
            if text::contains_str(res, "button returned:Yes") {
                YesNoCancel::Yes
            } else if text::contains_str(res, "button returned:No") {
                YesNoCancel::No
            } else {
                YesNoCancel::Cancel
            }
        },
        None => YesNoCancel::Cancel,
    }
}

/// What a prompt answer means: when the OK button was named, the text
/// after the first `text returned:`, less one trailing `}`; everything
/// else declines.
pub open spec fn spec_input_box_result(result: Option<Seq<char>>) -> Option<Seq<char>> {
    match result {
        None => None,
        Some(res) => if text::contains_seq(res, "button returned:OK"@) {
            match text::first_match(res, "text returned:"@) {
                Some(i) => {
                    let txt = res.subrange(i + "text returned:"@.len(), res.len() as int);
                    if txt.len() > 0 && txt[txt.len() - 1] == '}' {
                        Some(txt.drop_last())
                    } else {
                        Some(txt)
                    }
                },
                None => None,
            }
        } else {
            None
        },
    }
}

/// Decode a prompt answer.
pub fn decode_input_box(result: Option<&str>) -> (r: Option<String>)
    ensures
        match r {
            Some(t) => spec_input_box_result(opt_view(result)) == Some(t@),
            None => spec_input_box_result(opt_view(result)) is None,
        },
{
    match result {
        None => None,
        Some(res) => {
            if text::contains_str(res, "button returned:OK") {
                match text::find_str(res, "text returned:") {
                    Some(i) => {
                        let len = res.unicode_len();
                        let pl = "text returned:".unicode_len();
                        let txt = res.substring_char(i + pl, len);
                        let tlen = txt.unicode_len();
                        if tlen > 0 && txt.get_char(tlen - 1) == '}' {
                            proof {
                                assert(txt@.subrange(0, tlen - 1) =~= txt@.drop_last());
                            }
                            Some(txt.substring_char(0, tlen - 1).to_owned())
                        } else {
                            Some(txt.to_owned())
                        }
                    },
                    None => None,
                }
            } else {
                None
            }
        },
    }
}

/// The chosen POSIX paths: the interpreter's answer split at the `||`
/// delimiter the listing script inserts; `None` when the run failed.
pub fn decode_file_paths(result: Option<&str>) -> (r: Option<Vec<String>>)
    ensures
        match r {
            Some(v) => (match opt_view(result) {
                Some(res) => text::strings_view(v@) == text::split_str_spec(res, "||"@),
                None => false,
            }),
            None => result is None,
        },
{
    match result {
        None => None,
        Some(res) => {
            proof {
                reveal_strlit("||");
                assert("||"@.len() == 2);
            }
            Some(text::split_on_str(res, "||"))
        },
    }
}

/// What the color conversion script's answer means: three comma-separated
/// decimal channels, re-rendered as hex; anything else declines.
pub open spec fn spec_color_triple(result: Option<Seq<char>>) -> Option<(Seq<char>, Seq<u8>)> {
    match result {
        None => None,
        Some(res) => {
            let parts = text::split_spec(res, ',');
            if parts.len() >= 3 && text::is_u8_dec(parts[0]) && text::is_u8_dec(parts[1])
                && text::is_u8_dec(parts[2]) {
                let rgb = seq![
                    text::dec_val(text::dec_body(parts[0])) as u8,
                    text::dec_val(text::dec_body(parts[1])) as u8,
                    text::dec_val(text::dec_body(parts[2])) as u8,
                ];
                Some((color::spec_rgb_to_hex(rgb), rgb))
            } else {
                None
            }
        },
    }
}

/// Decode the color conversion script's `r,g,b` answer.
pub fn decode_color_triple(result: Option<&str>) -> (r: Option<(String, [u8; 3])>)
    ensures
        match r {
            Some(p) => spec_color_triple(opt_view(result)) == Some((p.0@, p.1@)),
            None => spec_color_triple(opt_view(result)) is None,
        },
{
    match result {
        None => None,
        Some(res) => {
            let parts = text::split_on_char(res, ',');
            if parts.len() >= 3 {
                proof {
                    assert(text::strings_view(parts@)[0] == parts@[0]@);
                    assert(text::strings_view(parts@)[1] == parts@[1]@);
                    assert(text::strings_view(parts@)[2] == parts@[2]@);
                }
                let r0 = text::parse_u8_dec(parts[0].as_str());
                let r1 = text::parse_u8_dec(parts[1].as_str());
                let r2 = text::parse_u8_dec(parts[2].as_str());
                match (r0, r1, r2) {
                    (Some(a), Some(b), Some(c)) => {
                        let rgb = [a, b, c];
                        let hex = color::rgb_to_hex(&rgb);
                        proof {
                            let sparts = text::split_spec(res@, ',');
                            assert(rgb@ =~= seq![
                                text::dec_val(text::dec_body(sparts[0])) as u8,
                                text::dec_val(text::dec_body(sparts[1])) as u8,
                                text::dec_val(text::dec_body(sparts[2])) as u8,
                            ]);
                        }
                        Some((hex, rgb))
                    },
                    _ => None,
                }
            } else {
                None
            }
        },
    }
}

/// Asking for a given default names exactly that button in the script, and
/// the interpreter reporting that button pressed decodes back to the same
/// answer: the default-button mapping is consistent in both directions.
pub proof fn lemma_yes_no_cancel_script_round_trip(d: YesNoCancel)
    ensures
        yes_no_cancel_button(d) == seq!['"'] + crate::unix::ync_label(d) + seq!['"'],
        spec_yes_no_cancel_script(Some("button returned:"@ + crate::unix::ync_label(d))) == d,
{
    reveal_strlit("Yes");
    reveal_strlit("No");
    reveal_strlit("Cancel");
    reveal_strlit("\"Yes\"");
    reveal_strlit("\"No\"");
    reveal_strlit("\"Cancel\"");
    reveal_strlit("button returned:");
    reveal_strlit("button returned:Yes");
    reveal_strlit("button returned:No");
    let pre = "button returned:"@;
    let yes_pat = "button returned:Yes"@;
    let no_pat = "button returned:No"@;
    assert(pre.len() == 16 && yes_pat.len() == 19 && no_pat.len() == 18);
    match d {
        YesNoCancel::Yes => {
            assert(yes_no_cancel_button(d) =~= seq!['"'] + "Yes"@ + seq!['"']);
            let s = pre + "Yes"@;
            assert(s =~= yes_pat);
            assert(s.subrange(0, 19) =~= yes_pat);
            assert(text::is_match_at(s, yes_pat, 0));
            assert(text::contains_seq(s, yes_pat));
        },
        YesNoCancel::No => {
            assert(yes_no_cancel_button(d) =~= seq!['"'] + "No"@ + seq!['"']);
            let s = pre + "No"@;
            assert(s.len() == 18);
            assert forall|i: int| !text::is_match_at(s, yes_pat, i) by {}
            assert(!text::contains_seq(s, yes_pat));
            assert(s.subrange(0, 18) =~= no_pat);
            assert(text::is_match_at(s, no_pat, 0));
            assert(text::contains_seq(s, no_pat));
        },
        YesNoCancel::Cancel => {
            assert(yes_no_cancel_button(d) =~= seq!['"'] + "Cancel"@ + seq!['"']);
            let s = pre + "Cancel"@;
            assert(s.len() == 22);
            assert forall|i: int| !text::is_match_at(s, yes_pat, i) by {
                if text::is_match_at(s, yes_pat, i) {
                    assert(0 <= i <= 3);
                    assert(s.subrange(i, i + 19)[0] == s[i]);
                    assert(s.subrange(i, i + 19)[16] == s[i + 16]);
                    assert(s[i] == yes_pat[0]);
                    assert(s[i + 16] == yes_pat[16]);
                }
            }
            assert(!text::contains_seq(s, yes_pat));
            assert forall|i: int| !text::is_match_at(s, no_pat, i) by {
                if text::is_match_at(s, no_pat, i) {
                    assert(0 <= i <= 4);
                    assert(s.subrange(i, i + 18)[0] == s[i]);
                    assert(s.subrange(i, i + 18)[16] == s[i + 16]);
                    assert(s[i] == no_pat[0]);
                    assert(s[i + 16] == no_pat[16]);
                }
            }
            assert(!text::contains_seq(s, no_pat));
        },
    }
}

} // verus!
