//! The Windows adapter's logic: the flag words handed to the native
//! message box, the mapping from its numeric responses to canonical
//! results, the filter and prompt strings, the packed color word, and the
//! assembly of a multi-selection answer.
//!
//! The native calls themselves are foreign and stay outside the library;
//! the functions here take their numeric results and decoded string
//! segments as plain values.

use vstd::prelude::*;

use crate::text;
use crate::FileDialog;
use crate::InputBox;
use crate::MessageBoxIcon;
use crate::OkCancel;
use crate::YesNo;
use crate::YesNoCancel;

verus! {

pub const MB_OK: u32 = 0x00000000;

pub const MB_OKCANCEL: u32 = 0x00000001;

pub const MB_YESNO: u32 = 0x00000004;

pub const MB_YESNOCANCEL: u32 = 0x00000003;

pub const MB_ICONINFORMATION: u32 = 0x00000040;

pub const MB_ICONWARNING: u32 = 0x00000030;

pub const MB_ICONERROR: u32 = 0x00000010;

pub const MB_ICONQUESTION: u32 = 0x00000020;

pub const MB_DEFBUTTON1: u32 = 0x00000000;

pub const MB_DEFBUTTON2: u32 = 0x00000100;

pub const MB_DEFBUTTON3: u32 = 0x00000200;

pub const IDOK: i32 = 1;

pub const IDCANCEL: i32 = 2;

pub const IDYES: i32 = 6;

pub const IDNO: i32 = 7;

/// The icon bits of the message box flag word.
pub open spec fn icon_flag(icon: MessageBoxIcon) -> u32 {
    match icon {
        MessageBoxIcon::Info => MB_ICONINFORMATION,
        MessageBoxIcon::Warning => MB_ICONWARNING,
        MessageBoxIcon::Error => MB_ICONERROR,
        MessageBoxIcon::Question => MB_ICONQUESTION,
    }
}

fn icon_flag_exec(icon: MessageBoxIcon) -> (r: u32)
    ensures
        r == icon_flag(icon),
{
    match icon {
        MessageBoxIcon::Info => MB_ICONINFORMATION,
        MessageBoxIcon::Warning => MB_ICONWARNING,
        MessageBoxIcon::Error => MB_ICONERROR,
        MessageBoxIcon::Question => MB_ICONQUESTION,
    }
}

/// The flag word for a plain message box.
pub fn message_box_ok_flags(icon: MessageBoxIcon) -> (r: u32)
    ensures
        r == MB_OK | icon_flag(icon),
{
    MB_OK | icon_flag_exec(icon)
}

/// The default-button bits for an ok/cancel box: the affirmative button
/// is the first, cancel the second.
pub open spec fn ok_cancel_default_flag(d: OkCancel) -> u32 {
    match d {
        OkCancel::Okay => MB_DEFBUTTON1,
        OkCancel::Cancel => MB_DEFBUTTON2,
    }
}

/// The flag word for an ok/cancel box.
pub fn message_box_ok_cancel_flags(icon: MessageBoxIcon, default: OkCancel) -> (r: u32)
    ensures
        r == MB_OKCANCEL | icon_flag(icon) | ok_cancel_default_flag(default),
{
    let d = match default {
        OkCancel::Okay => MB_DEFBUTTON1,
        OkCancel::Cancel => MB_DEFBUTTON2,
    };
    MB_OKCANCEL | icon_flag_exec(icon) | d
}

/// The default-button bits for a yes/no box.
pub open spec fn yes_no_default_flag(d: YesNo) -> u32 {
    match d {
        YesNo::Yes => MB_DEFBUTTON1,
        YesNo::No => MB_DEFBUTTON2,
    }
}

/// The flag word for a yes/no box.
pub fn message_box_yes_no_flags(icon: MessageBoxIcon, default: YesNo) -> (r: u32)
    ensures
        r == MB_YESNO | icon_flag(icon) | yes_no_default_flag(default),
{
    let d = match default {
        YesNo::Yes => MB_DEFBUTTON1,
        YesNo::No => MB_DEFBUTTON2,
    };
    MB_YESNO | icon_flag_exec(icon) | d
}

/// The default-button bits for a yes/no/cancel box: yes, no and cancel
/// sit at the first, second and third position.
pub open spec fn yes_no_cancel_default_flag(d: YesNoCancel) -> u32 {
    match d {
        YesNoCancel::Yes => MB_DEFBUTTON1,
        YesNoCancel::No => MB_DEFBUTTON2,
        YesNoCancel::Cancel => MB_DEFBUTTON3,
    }
}

/// The flag word for a yes/no/cancel box.
pub fn message_box_yes_no_cancel_flags(icon: MessageBoxIcon, default: YesNoCancel) -> (r: u32)
    ensures
        r == MB_YESNOCANCEL | icon_flag(icon) | yes_no_cancel_default_flag(default),
{
    let d = match default {
        YesNoCancel::Yes => MB_DEFBUTTON1,
        YesNoCancel::No => MB_DEFBUTTON2,
        YesNoCancel::Cancel => MB_DEFBUTTON3,
    };
    MB_YESNOCANCEL | icon_flag_exec(icon) | d
}

/// `Okay` exactly when the native box answered `IDOK`.
pub fn decode_ok_cancel_response(ret: i32) -> (r: OkCancel)
    ensures
        (r == OkCancel::Okay) <==> ret == IDOK,
{
    if ret == IDOK {
        OkCancel::Okay
    } else {
        OkCancel::Cancel
    }
}

/// `Yes` exactly when the native box answered `IDYES`.
pub fn decode_yes_no_response(ret: i32) -> (r: YesNo)
    ensures
        (r == YesNo::Yes) <==> ret == IDYES,
{
    if ret == IDYES {
        YesNo::Yes
    } else {
        YesNo::No
    }
}

/// `IDYES` means yes, `IDNO` means no, everything else cancels.
pub fn decode_yes_no_cancel_response(ret: i32) -> (r: YesNoCancel)
    ensures
        r == (if ret == IDYES {
            YesNoCancel::Yes
        } else if ret == IDNO {
            YesNoCancel::No
        } else {
            YesNoCancel::Cancel
        }),
{
    if ret == IDYES {
        YesNoCancel::Yes
    } else if ret == IDNO {
        YesNoCancel::No
    } else {
        YesNoCancel::Cancel
    }
}

/// The caption and prompt of the message box that stands in for a true
/// input dialog on this backend.
pub fn input_box_prompt(input: &InputBox) -> (r: (String, String))
    ensures
        r.0@ == input.spec_title() + " - "@ + (if input.spec_is_password() {
            "Password"@
        } else {
            "Input"@
        }),
        r.1@ == input.spec_message() + "\n\n[Default: "@ + input.spec_default_or_empty() + "]"@,
{
    let msg_type = if input.is_password() {
        "Password"
    } else {
        "Input"
    };
    let mut caption = input.title().to_owned();
    caption.append(" - ");
    caption.append(msg_type);
    let mut prompt = input.message().to_owned();
    prompt.append("\n\n[Default: ");
    match input.default_value() {
        Some(d) => prompt.append(d),
        None => (),
    }
    prompt.append("]");
    proof {
        reveal_strlit("");
        assert(""@ =~= Seq::<char>::empty());
        assert(caption@ =~= input.spec_title() + " - "@ + (if input.spec_is_password() {
            "Password"@
        } else {
            "Input"@
        }));
        assert(prompt@ =~= input.spec_message() + "\n\n[Default: "@
            + input.spec_default_or_empty() + "]"@);
    }
    (caption, prompt)
}

/// This backend cannot truly prompt: `IDOK` returns the caller's default
/// value (empty when unset), anything else declines.
pub fn input_box_response(ret: i32, input: &InputBox) -> (r: Option<String>)
    ensures
        match r {
            Some(t) => ret == IDOK && t@ == input.spec_default_or_empty(),
            None => ret != IDOK,
        },
{
    proof {
        reveal_strlit("");
        assert(""@ =~= Seq::<char>::empty());
    }
    if ret == IDOK {
        match input.default_value() {
            Some(d) => Some(d.to_owned()),
            None => Some("".to_owned()),
        }
    } else {
        None
    }
}

/// The NUL-separated filter string for the native file dialogs: the
/// described glob patterns joined with `;`, when both are set, then an
/// "All Files" entry, then the final NUL.
pub fn build_filter_string(dialog: &FileDialog) -> (r: String)
    ensures
        r@ == (if dialog.spec_filter_description().len() > 0 && dialog.spec_filter_patterns().len()
            > 0 {
            dialog.spec_filter_description() + "\u{0}"@ + text::join_seqs_sep(
                dialog.spec_filter_patterns(),
                ";"@,
            ) + "\u{0}"@
        } else {
            Seq::<char>::empty()
        }) + "All Files\u{0}*.*\u{0}\u{0}"@,
{
    let mut filter = String::new();
    if dialog.filter_description().unicode_len() > 0 && dialog.filter_patterns().len() > 0 {
        filter.append(dialog.filter_description());
        filter.append("\u{0}");
        let joined = text::join_with_str(dialog.filter_patterns(), ";");
        filter.append(joined.as_str());
        filter.append("\u{0}");
    }
    filter.append("All Files\u{0}*.*\u{0}\u{0}");
    proof {
        assert(filter@ =~= (if dialog.spec_filter_description().len() > 0
            && dialog.spec_filter_patterns().len() > 0 {
            dialog.spec_filter_description() + "\u{0}"@ + text::join_seqs_sep(
                dialog.spec_filter_patterns(),
                ";"@,
            ) + "\u{0}"@
        } else {
            Seq::<char>::empty()
        }) + "All Files\u{0}*.*\u{0}\u{0}"@);
    }
    filter
}

/// Assemble a multi-selection answer from the dialog's NUL-separated
/// segments: a single segment is the one chosen file, otherwise the first
/// segment is the directory and each later one a file name under it.
pub fn open_file_multi_paths(segments: &Vec<String>) -> (r: Vec<String>)
    requires
        segments@.len() >= 1,
    ensures
        segments@.len() == 1 ==> text::strings_view(r@) == text::strings_view(segments@),
        segments@.len() > 1 ==> r@.len() == segments@.len() - 1 && forall|k: int|
            0 <= k < r@.len() ==> (#[trigger] r@[k])@ == segments@[0]@ + "\\"@ + segments@[k + 1]@,
{
    let n = segments.len();
    if n == 1 {
        let mut r: Vec<String> = Vec::new();
        r.push(segments[0].clone());
        proof {
            assert(text::strings_view(r@) =~= text::strings_view(segments@));
        }
        r
    } else {
        let mut r: Vec<String> = Vec::new();
        let mut k: usize = 1;
        while k < n
            invariant
                n == segments@.len(),
                1 <= k <= n,
                r@.len() == k - 1,
                forall|j: int| 0 <= j < r@.len() ==> (#[trigger] r@[j])@ == segments@[0]@ + "\\"@
                    + segments@[j + 1]@,
            decreases n - k,
        {
            let mut path = segments[0].clone();
            path.append("\\");
            path.append(segments[k].as_str());
            r.push(path);
            k = k + 1;
        }
        r
    }
}

/// The views of a sequence of buffers.
pub open spec fn buffers_view(v: Seq<Vec<u16>>) -> Seq<Seq<u16>> {
    Seq::new(v.len(), |k: int| v[k]@)
}

/// Index of the first NUL unit in the buffer, or its length.
pub open spec fn first_nul(buf: Seq<u16>) -> int
    decreases buf.len(),
{
    if buf.len() == 0 {
        0
    } else if buf[0] == 0 {
        0
    } else {
        1 + first_nul(buf.drop_first())
    }
}

proof fn lemma_first_nul_at(buf: Seq<u16>, j: int)
    requires
        0 <= j <= buf.len(),
        forall|k: int| 0 <= k < j ==> buf[k] != 0,
        j == buf.len() || buf[j] == 0,
    ensures
        first_nul(buf) == j,
    decreases j,
{
    if j > 0 {
        lemma_first_nul_at(buf.drop_first(), j - 1);
    }
}

/// The NUL-separated segments at the front of a dialog's answer buffer:
/// the list ends at the empty segment (a double NUL) or at the buffer's
/// end.
pub open spec fn nul_segments(buf: Seq<u16>) -> Seq<Seq<u16>>
    decreases buf.len(),
    via nul_segments_decreases
{
    let i = first_nul(buf);
    if i == 0 {
        Seq::empty()
    } else if i == buf.len() {
        seq![buf]
    } else {
        seq![buf.subrange(0, i)] + nul_segments(buf.subrange(i + 1, buf.len() as int))
    }
}

#[via_fn]
proof fn nul_segments_decreases(buf: Seq<u16>) {
    lemma_first_nul_at_default(buf);
}

proof fn lemma_first_nul_at_default(buf: Seq<u16>)
    ensures
        0 <= first_nul(buf) <= buf.len(),
    decreases buf.len(),
{
    if buf.len() > 0 && buf[0] != 0 {
        lemma_first_nul_at_default(buf.drop_first());
    }
}

/// Cut a dialog's answer buffer into its NUL-separated segments.
pub fn split_nul_segments(buf: &[u16]) -> (r: Vec<Vec<u16>>)
    ensures
        buffers_view(r@) == nul_segments(buf@),
{
    let len = buf.len();
    let mut r: Vec<Vec<u16>> = Vec::new();
    let mut start: usize = 0;
    let mut done = false;
    proof {
        assert(buf@.subrange(0, len as int) =~= buf@);
        assert(buffers_view(r@) + nul_segments(buf@) =~= nul_segments(buf@));
    }
    while !done
        invariant
            len == buf@.len(),
            0 <= start <= len,
            !done ==> nul_segments(buf@) == buffers_view(r@) + nul_segments(
                buf@.subrange(start as int, len as int),
            ),
            done ==> buffers_view(r@) == nul_segments(buf@),
        decreases len - start + (if done { 0int } else { 1int }),
    {
        let ghost rest = buf@.subrange(start as int, len as int);
        let mut i = start;
        while i < len && buf[i] != 0
            invariant
                len == buf@.len(),
                start <= i <= len,
                forall|k: int| start <= k < i ==> buf@[k] != 0,
            decreases len - i,
        {
            i = i + 1;
        }
        proof {
            lemma_first_nul_at(rest, i - start);
        }
        if i == start {
            proof {
                assert(nul_segments(rest) =~= Seq::<Seq<u16>>::empty());
                assert(buffers_view(r@) + nul_segments(rest) =~= buffers_view(r@));
            }
            done = true;
        } else {
            let ghost prev = r@;
            let mut seg: Vec<u16> = Vec::new();
            let mut k = start;
            while k < i
                invariant
                    len == buf@.len(),
                    start <= k <= i <= len,
                    seg@ == buf@.subrange(start as int, k as int),
                decreases i - k,
            {
                proof {
                    assert(buf@.subrange(start as int, k + 1) =~= buf@.subrange(
                        start as int,
                        k as int,
                    ).push(buf@[k as int]));
                }
                seg.push(buf[k]);
                k = k + 1;
            }
            r.push(seg);
            proof {
                assert(buffers_view(r@) =~= buffers_view(prev).push(
                    buf@.subrange(start as int, i as int),
                ));
                assert(rest.subrange(0, i - start) =~= buf@.subrange(start as int, i as int));
            }
            if i == len {
                proof {
                    assert(rest.subrange(0, i - start) =~= rest);
                    assert(nul_segments(rest) =~= seq![rest]);
                    assert(buffers_view(prev) + seq![rest] =~= buffers_view(r@));
                }
                done = true;
            } else {
                proof {
                    assert(rest.subrange(i - start + 1, rest.len() as int) =~= buf@.subrange(
                        i + 1,
                        len as int,
                    ));
                    assert(nul_segments(rest) =~= seq![buf@.subrange(start as int, i as int)]
                        + nul_segments(buf@.subrange(i + 1, len as int)));
                    assert(buffers_view(prev) + nul_segments(rest) =~= buffers_view(r@)
                        + nul_segments(buf@.subrange(i + 1, len as int)));
                }
                start = i + 1;
            }
        }
    }
    r
}

/// Pack an RGB triple into the native color word: red in the low byte,
/// then green, then blue.
pub fn rgb_to_colorref(rgb: &[u8; 3]) -> (r: u32)
    ensures
        r == rgb@[0] + 256 * rgb@[1] + 65536 * rgb@[2],
{
    (rgb[0] as u32) + 256 * (rgb[1] as u32) + 65536 * (rgb[2] as u32)
}

/// Unpack the native color word into its RGB triple.
pub fn colorref_to_rgb(c: u32) -> (rgb: [u8; 3])
    ensures
        rgb@ == seq![(c % 256) as u8, ((c / 256) % 256) as u8, ((c / 65536) % 256) as u8],
{
    let r = (c % 256) as u8;
    let g = ((c / 256) % 256) as u8;
    let b = ((c / 65536) % 256) as u8;
    let rgb = [r, g, b];
    proof {
        assert(rgb@ =~= seq![(c % 256) as u8, ((c / 256) % 256) as u8, ((c / 65536) % 256) as u8]);
    }
    rgb
}

/// Packing a triple into a color word and unpacking it returns the same
/// triple.
pub proof fn lemma_colorref_round_trip(r: u8, g: u8, b: u8)
    ensures
        (r + 256 * g + 65536 * b) % 256 == r,
        ((r + 256 * g + 65536 * b) / 256) % 256 == g,
        ((r + 256 * g + 65536 * b) / 65536) % 256 == b,
{
    let v = r + 256 * g + 65536 * b;
    assert(v % 256 == r) by (nonlinear_arith)
        requires
            v == r + 256 * g + 65536 * b,
            r < 256,
    ;
    assert((v / 256) % 256 == g) by (nonlinear_arith)
        requires
            v == r + 256 * g + 65536 * b,
            r < 256,
            g < 256,
    ;
    assert((v / 65536) % 256 == b) by (nonlinear_arith)
        requires
            v == r + 256 * g + 65536 * b,
            r < 256,
            g < 256,
            b < 256,
    ;
}

} // verus!
