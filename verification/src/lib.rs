//! Cross-platform modal dialog facade.
//!
//! One request type per dialog kind (message box, input box, file dialogs,
//! color chooser, notification), built with a builder API and handed to a
//! platform backend.  The backend-independent logic lives here: request
//! construction, shell/AppleScript sanitization, command construction and
//! response decoding for each backend family, and the color conversions.
//! The process spawning and native calls themselves stay outside the
//! library; they feed their raw outcomes back into the decoders below.

use vstd::prelude::*;

pub mod color;
pub mod ios;
pub mod macos;
pub mod text;
pub mod unix;
pub mod windows;

pub use color::{hex_to_rgb, rgb_to_hex};

verus! {

#[derive(Debug, Clone, Copy, PartialEq, Eq, Structural)]
pub enum MessageBoxIcon {
    Info,
    Warning,
    Error,
    Question,
}

impl MessageBoxIcon {
    /// The icon's generic name, as the Unix tools spell it.
    pub open spec fn spec_str(self) -> Seq<char> {
        match self {
            MessageBoxIcon::Info => "info"@,
            MessageBoxIcon::Warning => "warning"@,
            MessageBoxIcon::Error => "error"@,
            MessageBoxIcon::Question => "question"@,
        }
    }

    pub fn to_str(&self) -> (r: &'static str)
        ensures
            r@ == self.spec_str(),
    {
        match *self {
            MessageBoxIcon::Info => "info",
            MessageBoxIcon::Warning => "warning",
            MessageBoxIcon::Error => "error",
            MessageBoxIcon::Question => "question",
        }
    }
}

#[derive(Debug, Clone, Copy, PartialEq, Eq, Structural)]
pub enum OkCancel {
    Cancel,
    Okay,
}

#[derive(Debug, Clone, Copy, PartialEq, Eq, Structural)]
pub enum YesNo {
    No,
    Yes,
}

#[derive(Debug, Clone, Copy, PartialEq, Eq, Structural)]
pub enum YesNoCancel {
    Cancel,
    Yes,
    No,
}

/// Title and message shared by every dialog kind.
pub struct Dialog {
    title: String,
    message: String,
}

impl Dialog {
    pub closed spec fn spec_title(&self) -> Seq<char> {
        self.title@
    }

    pub closed spec fn spec_message(&self) -> Seq<char> {
        self.message@
    }

    pub fn new(title: &str, message: &str) -> (r: Dialog)
        ensures
            r.spec_title() == title@,
            r.spec_message() == message@,
    {
        Dialog { title: title.to_owned(), message: message.to_owned() }
    }

    pub fn title(&self) -> (r: &str)
        ensures
            r@ == self.spec_title(),
    {
        self.title.as_str()
    }

    pub fn message(&self) -> (r: &str)
        ensures
            r@ == self.spec_message(),
    {
        self.message.as_str()
    }

    pub fn with_title(self, title: &str) -> (r: Dialog)
        ensures
            r.spec_title() == title@,
            r.spec_message() == self.spec_message(),
    {
        Dialog { title: title.to_owned(), message: self.message }
    }

    pub fn with_message(self, message: &str) -> (r: Dialog)
        ensures
            r.spec_title() == self.spec_title(),
            r.spec_message() == message@,
    {
        Dialog { title: self.title, message: message.to_owned() }
    }

    /// One character's expansion under shell sanitization: `"`, `'` and
    /// `` ` `` gain a backslash, everything else stays itself.
    pub open spec fn input_escape(c: char) -> Seq<char> {
        if c == '"' {
            seq!['\\', '"']
        } else if c == '\'' {
            seq!['\\', '\'']
        } else if c == '`' {
            seq!['\\', '`']
        } else {
            seq![c]
        }
    }

    pub open spec fn spec_sanitize_input(s: Seq<char>) -> Seq<char> {
        text::escape_chars(|c: char| Dialog::input_escape(c), s)
    }

    /// Sanitize text bound for a shell command line: escape double quotes,
    /// single quotes and backquotes.
    pub fn sanitize_input(input: &str) -> (r: String)
        ensures
            r@ == Dialog::spec_sanitize_input(input@),
    {
        let len = input.unicode_len();
        let mut out = String::new();
        let mut i: usize = 0;
        while i < len
            invariant
                len == input@.len(),
                0 <= i <= len,
                out@ == Dialog::spec_sanitize_input(input@.subrange(0, i as int)),
            decreases len - i,
        {
            let c = input.get_char(i);
            if c == '"' {
                out.append("\\\"");
            } else if c == '\'' {
                out.append("\\'");
            } else if c == '`' {
                out.append("\\`");
            } else {
                out.append(input.substring_char(i, i + 1));
            }
            proof {
                reveal_strlit("\\\"");
                reveal_strlit("\\'");
                reveal_strlit("\\`");
                text::lemma_escape_chars_push(
                    |c: char| Dialog::input_escape(c),
                    input@.subrange(0, i as int),
                    c,
                );
                assert(input@.subrange(0, i + 1) =~= input@.subrange(0, i as int).push(
                    input@[i as int],
                ));
                assert(input@.subrange(i as int, i + 1) =~= seq![c]);
                assert(out@ =~= Dialog::spec_sanitize_input(input@.subrange(0, i + 1)));
            }
            i = i + 1;
        }
        proof {
            assert(input@.subrange(0, len as int) =~= input@);
        }
        out
    }
}

/// A message box request: a dialog plus an icon.
pub struct MessageBox {
    dialog: Dialog,
    icon: MessageBoxIcon,
}

impl MessageBox {
    pub closed spec fn spec_title(&self) -> Seq<char> {
        self.dialog.spec_title()
    }

    pub closed spec fn spec_message(&self) -> Seq<char> {
        self.dialog.spec_message()
    }

    pub closed spec fn spec_icon(&self) -> MessageBoxIcon {
        self.icon
    }

    pub fn new(title: &str, message: &str) -> (r: MessageBox)
        ensures
            r.spec_title() == title@,
            r.spec_message() == message@,
            r.spec_icon() == MessageBoxIcon::Info,
    {
        MessageBox { dialog: Dialog::new(title, message), icon: MessageBoxIcon::Info }
    }

    pub fn with_icon(self, icon: MessageBoxIcon) -> (r: MessageBox)
        ensures
            r.spec_title() == self.spec_title(),
            r.spec_message() == self.spec_message(),
            r.spec_icon() == icon,
    {
        MessageBox { dialog: self.dialog, icon }
    }

    pub fn icon(&self) -> (r: MessageBoxIcon)
        ensures
            r == self.spec_icon(),
    {
        self.icon
    }

    pub fn title(&self) -> (r: &str)
        ensures
            r@ == self.spec_title(),
    {
        self.dialog.title()
    }

    pub fn message(&self) -> (r: &str)
        ensures
            r@ == self.spec_message(),
    {
        self.dialog.message()
    }
}

/// A text or password prompt request.
pub struct InputBox {
    dialog: Dialog,
    default_value: Option<String>,
    is_password: bool,
}

impl InputBox {
    pub closed spec fn spec_title(&self) -> Seq<char> {
        self.dialog.spec_title()
    }

    pub closed spec fn spec_message(&self) -> Seq<char> {
        self.dialog.spec_message()
    }

    pub closed spec fn spec_default_value(&self) -> Option<Seq<char>> {
        match self.default_value {
            Some(s) => Some(s@),
            None => None,
        }
    }

    pub closed spec fn spec_is_password(&self) -> bool {
        self.is_password
    }

    /// The default value, or the empty string when none was set.
    pub open spec fn spec_default_or_empty(&self) -> Seq<char> {
        match self.spec_default_value() {
            Some(s) => s,
            None => Seq::empty(),
        }
    }

    pub fn new(title: &str, message: &str) -> (r: InputBox)
        ensures
            r.spec_title() == title@,
            r.spec_message() == message@,
            r.spec_default_value() is None,
            !r.spec_is_password(),
    {
        InputBox { dialog: Dialog::new(title, message), default_value: None, is_password: false }
    }

    pub fn with_default(self, default: &str) -> (r: InputBox)
        ensures
            r.spec_title() == self.spec_title(),
            r.spec_message() == self.spec_message(),
            r.spec_default_value() == Some(default@),
            r.spec_is_password() == self.spec_is_password(),
    {
        InputBox {
            dialog: self.dialog,
            default_value: Some(default.to_owned()),
            is_password: self.is_password,
        }
    }

    pub fn password(self, is_password: bool) -> (r: InputBox)
        ensures
            r.spec_title() == self.spec_title(),
            r.spec_message() == self.spec_message(),
            r.spec_default_value() == self.spec_default_value(),
            r.spec_is_password() == is_password,
    {
        InputBox { dialog: self.dialog, default_value: self.default_value, is_password }
    }

    pub fn default_value(&self) -> (r: Option<&str>)
        ensures
            match r {
                Some(s) => self.spec_default_value() == Some(s@),
                None => self.spec_default_value() is None,
            },
    {
        match &self.default_value {
            Some(s) => Some(s.as_str()),
            None => None,
        }
    }

    pub fn is_password(&self) -> (r: bool)
        ensures
            r == self.spec_is_password(),
    {
        self.is_password
    }

    pub fn title(&self) -> (r: &str)
        ensures
            r@ == self.spec_title(),
    {
        self.dialog.title()
    }

    pub fn message(&self) -> (r: &str)
        ensures
            r@ == self.spec_message(),
    {
        self.dialog.message()
    }
}

/// A file or folder dialog request: seed path, glob filter, and whether
/// several files may be picked at once.
pub struct FileDialog {
    dialog: Dialog,
    path: String,
    filter_patterns: Vec<String>,
    filter_description: String,
    multiple_selection: bool,
}

impl FileDialog {
    pub closed spec fn spec_title(&self) -> Seq<char> {
        self.dialog.spec_title()
    }

    pub closed spec fn spec_path(&self) -> Seq<char> {
        self.path@
    }

    pub closed spec fn spec_filter_patterns(&self) -> Seq<Seq<char>> {
        text::strings_view(self.filter_patterns@)
    }

    pub closed spec fn spec_filter_description(&self) -> Seq<char> {
        self.filter_description@
    }

    pub closed spec fn spec_multiple_selection(&self) -> bool {
        self.multiple_selection
    }

    pub fn new(title: &str) -> (r: FileDialog)
        ensures
            r.spec_title() == title@,
            r.spec_path() == Seq::<char>::empty(),
            r.spec_filter_patterns() == Seq::<Seq<char>>::empty(),
            r.spec_filter_description() == Seq::<char>::empty(),
            !r.spec_multiple_selection(),
    {
        let r = FileDialog {
            dialog: Dialog::new(title, ""),
            path: String::new(),
            filter_patterns: Vec::new(),
            filter_description: String::new(),
            multiple_selection: false,
        };
        proof {
            assert(r.spec_filter_patterns() =~= Seq::<Seq<char>>::empty());
        }
        r
    }

    pub fn with_path(self, path: &str) -> (r: FileDialog)
        ensures
            r.spec_title() == self.spec_title(),
            r.spec_path() == path@,
            r.spec_filter_patterns() == self.spec_filter_patterns(),
            r.spec_filter_description() == self.spec_filter_description(),
            r.spec_multiple_selection() == self.spec_multiple_selection(),
    {
        FileDialog {
            dialog: self.dialog,
            path: path.to_owned(),
            filter_patterns: self.filter_patterns,
            filter_description: self.filter_description,
            multiple_selection: self.multiple_selection,
        }
    }

    pub fn with_filter(self, patterns: &[&str], description: &str) -> (r: FileDialog)
        ensures
            r.spec_title() == self.spec_title(),
            r.spec_path() == self.spec_path(),
            r.spec_filter_patterns() == text::strs_view(patterns@),
            r.spec_filter_description() == description@,
            r.spec_multiple_selection() == self.spec_multiple_selection(),
    {
        let mut owned: Vec<String> = Vec::new();
        let n = patterns.len();
        let mut i: usize = 0;
        while i < n
            invariant
                n == patterns@.len(),
                0 <= i <= n,
                owned@.len() == i,
                forall|k: int| 0 <= k < i ==> (#[trigger] owned@[k])@ == patterns@[k]@,
            decreases n - i,
        {
            owned.push(patterns[i].to_owned());
            i = i + 1;
        }
        let r = FileDialog {
            dialog: self.dialog,
            path: self.path,
            filter_patterns: owned,
            filter_description: description.to_owned(),
            multiple_selection: self.multiple_selection,
        };
        proof {
            assert(r.spec_filter_patterns() =~= text::strs_view(patterns@));
        }
        r
    }

    pub fn with_multiple_selection(self, allow_multi: bool) -> (r: FileDialog)
        ensures
            r.spec_title() == self.spec_title(),
            r.spec_path() == self.spec_path(),
            r.spec_filter_patterns() == self.spec_filter_patterns(),
            r.spec_filter_description() == self.spec_filter_description(),
            r.spec_multiple_selection() == allow_multi,
    {
        FileDialog {
            dialog: self.dialog,
            path: self.path,
            filter_patterns: self.filter_patterns,
            filter_description: self.filter_description,
            multiple_selection: allow_multi,
        }
    }

    pub fn title(&self) -> (r: &str)
        ensures
            r@ == self.spec_title(),
    {
        self.dialog.title()
    }

    pub fn path(&self) -> (r: &str)
        ensures
            r@ == self.spec_path(),
    {
        self.path.as_str()
    }

    pub fn filter_patterns(&self) -> (r: &[String])
        ensures
            text::strings_view(r@) == self.spec_filter_patterns(),
    {
        self.filter_patterns.as_slice()
    }

    pub fn filter_description(&self) -> (r: &str)
        ensures
            r@ == self.spec_filter_description(),
    {
        self.filter_description.as_str()
    }

    pub fn multiple_selection(&self) -> (r: bool)
        ensures
            r == self.spec_multiple_selection(),
    {
        self.multiple_selection
    }
}

/// The seed color handed to a color chooser: either a hex string or an
/// RGB triple.
pub enum DefaultColorValue {
    Hex(String),
    RGB([u8; 3]),
}

/// The spec-level image of a `DefaultColorValue`.
pub enum ColorValueView {
    Hex(Seq<char>),
    Rgb(Seq<u8>),
}

impl View for DefaultColorValue {
    type V = ColorValueView;

    open spec fn view(&self) -> ColorValueView {
        match self {
            DefaultColorValue::Hex(s) => ColorValueView::Hex(s@),
            DefaultColorValue::RGB(a) => ColorValueView::Rgb(a@),
        }
    }
}

/// A hex seed is usable when six characters follow its leading hashes,
/// as the data model demands; an RGB seed always is.
pub open spec fn color_value_wf(v: ColorValueView) -> bool {
    match v {
        ColorValueView::Hex(s) => color::strip_hashes(s).len() >= 6,
        ColorValueView::Rgb(rgb) => rgb.len() == 3,
    }
}

/// The RGB triple a seed denotes.
pub open spec fn spec_default_rgb(v: ColorValueView) -> Seq<u8> {
    match v {
        ColorValueView::Hex(s) => color::spec_hex_to_rgb(s),
        ColorValueView::Rgb(rgb) => rgb,
    }
}

/// A color chooser request.
pub struct ColorChooser {
    dialog: Dialog,
    default_color: DefaultColorValue,
}

impl ColorChooser {
    pub closed spec fn spec_title(&self) -> Seq<char> {
        self.dialog.spec_title()
    }

    pub closed spec fn spec_default_color(&self) -> ColorValueView {
        self.default_color@
    }

    pub fn new(title: &str) -> (r: ColorChooser)
        ensures
            r.spec_title() == title@,
            r.spec_default_color() == ColorValueView::Rgb(seq![0u8, 0u8, 0u8]),
    {
        let r = ColorChooser {
            dialog: Dialog::new(title, ""),
            default_color: DefaultColorValue::RGB([0, 0, 0]),
        };
        proof {
            assert(r.spec_default_color()->Rgb_0 =~= seq![0u8, 0u8, 0u8]);
        }
        r
    }

    pub fn with_default_color(self, default: DefaultColorValue) -> (r: ColorChooser)
        ensures
            r.spec_title() == self.spec_title(),
            r.spec_default_color() == default@,
    {
        ColorChooser { dialog: self.dialog, default_color: default }
    }

    pub fn default_color(&self) -> (r: &DefaultColorValue)
        ensures
            r@ == self.spec_default_color(),
    {
        &self.default_color
    }

    pub fn title(&self) -> (r: &str)
        ensures
            r@ == self.spec_title(),
    {
        self.dialog.title()
    }

    /// Whether the seed color can be resolved to an RGB triple.
    pub fn default_color_wf(&self) -> (r: bool)
        ensures
            r == color_value_wf(self.spec_default_color()),
    {
        match &self.default_color {
            DefaultColorValue::Hex(s) => color::has_six_hex_chars(s.as_str()),
            DefaultColorValue::RGB(_) => true,
        }
    }

    /// The RGB triple the seed denotes; a hex seed is parsed leniently.
    pub fn default_rgb(&self) -> (rgb: [u8; 3])
        requires
            color_value_wf(self.spec_default_color()),
        ensures
            rgb@ == spec_default_rgb(self.spec_default_color()),
    {
        match &self.default_color {
            DefaultColorValue::Hex(s) => color::hex_to_rgb(s.as_str()),
            DefaultColorValue::RGB(rgb) => [rgb[0], rgb[1], rgb[2]],
        }
    }
}

/// A desktop notification request.
pub struct Notification {
    title: String,
    message: String,
    subtitle: Option<String>,
    sound: Option<String>,
}

impl Notification {
    pub closed spec fn spec_title(&self) -> Seq<char> {
        self.title@
    }

    pub closed spec fn spec_message(&self) -> Seq<char> {
        self.message@
    }

    pub closed spec fn spec_subtitle(&self) -> Option<Seq<char>> {
        match self.subtitle {
            Some(s) => Some(s@),
            None => None,
        }
    }

    pub closed spec fn spec_sound(&self) -> Option<Seq<char>> {
        match self.sound {
            Some(s) => Some(s@),
            None => None,
        }
    }

    pub fn new(title: &str, message: &str) -> (r: Notification)
        ensures
            r.spec_title() == title@,
            r.spec_message() == message@,
            r.spec_subtitle() is None,
            r.spec_sound() is None,
    {
        Notification {
            title: title.to_owned(),
            message: message.to_owned(),
            subtitle: None,
            sound: None,
        }
    }

    pub fn with_subtitle(self, subtitle: &str) -> (r: Notification)
        ensures
            r.spec_title() == self.spec_title(),
            r.spec_message() == self.spec_message(),
            r.spec_subtitle() == Some(subtitle@),
            r.spec_sound() == self.spec_sound(),
    {
        Notification {
            title: self.title,
            message: self.message,
            subtitle: Some(subtitle.to_owned()),
            sound: self.sound,
        }
    }

    pub fn with_sound(self, sound: &str) -> (r: Notification)
        ensures
            r.spec_title() == self.spec_title(),
            r.spec_message() == self.spec_message(),
            r.spec_subtitle() == self.spec_subtitle(),
            r.spec_sound() == Some(sound@),
    {
        Notification {
            title: self.title,
            message: self.message,
            subtitle: self.subtitle,
            sound: Some(sound.to_owned()),
        }
    }

    pub fn title(&self) -> (r: &str)
        ensures
            r@ == self.spec_title(),
    {
        self.title.as_str()
    }

    pub fn message(&self) -> (r: &str)
        ensures
            r@ == self.spec_message(),
    {
        self.message.as_str()
    }

    pub fn subtitle(&self) -> (r: Option<&str>)
        ensures
            match r {
                Some(s) => self.spec_subtitle() == Some(s@),
                None => self.spec_subtitle() is None,
            },
    {
        match &self.subtitle {
            Some(s) => Some(s.as_str()),
            None => None,
        }
    }

    pub fn sound(&self) -> (r: Option<&str>)
        ensures
            match r {
                Some(s) => self.spec_sound() == Some(s@),
                None => self.spec_sound() is None,
            },
    {
        match &self.sound {
            Some(s) => Some(s.as_str()),
            None => None,
        }
    }
}

} // verus!
