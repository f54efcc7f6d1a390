use crate::text::{decimal, hex_upper, push_decimal, push_hex_upper};
use vstd::prelude::*;
use vstd::utf8::{decode_utf8, valid_utf8};

verus! {

/// The name of a standard clipboard format, by its number.
pub open spec fn standard_format_name(format: u32) -> Option<Seq<char>> {
    if format == 1 {
        Some("CF_TEXT"@)
    } else if format == 2 {
        Some("CF_BITMAP"@)
    } else if format == 3 {
        Some("CF_METAFILEPICT"@)
    } else if format == 4 {
        Some("CF_SYLK"@)
    } else if format == 5 {
        Some("CF_DIF"@)
    } else if format == 6 {
        Some("CF_TIFF"@)
    } else if format == 7 {
        Some("CF_OEMTEXT"@)
    } else if format == 8 {
        Some("CF_DIB"@)
    } else if format == 9 {
        Some("CF_PALETTE"@)
    } else if format == 10 {
        Some("CF_PENDATA"@)
    } else if format == 11 {
        Some("CF_RIFF"@)
    } else if format == 12 {
        Some("CF_WAVE"@)
    } else if format == 13 {
        Some("CF_UNICODETEXT"@)
    } else if format == 14 {
        Some("CF_ENHMETAFILE"@)
    } else if format == 15 {
        Some("CF_HDROP"@)
    } else if format == 16 {
        Some("CF_LOCALE"@)
    } else if format == 17 {
        Some("CF_DIBV5"@)
    } else {
        None
    }
}

/// The name of a standard clipboard format, by its number.
pub fn standard_format(format: u32) -> (r: Option<&'static str>)
    ensures
        match r {
            Some(s) => standard_format_name(format) == Some(s@),
            None => standard_format_name(format) is None,
        },
{
    if format == 1 {
        Some("CF_TEXT")
    } else if format == 2 {
        Some("CF_BITMAP")
    } else if format == 3 {
        Some("CF_METAFILEPICT")
    } else if format == 4 {
        Some("CF_SYLK")
    } else if format == 5 {
        Some("CF_DIF")
    } else if format == 6 {
        Some("CF_TIFF")
    } else if format == 7 {
        Some("CF_OEMTEXT")
    } else if format == 8 {
        Some("CF_DIB")
    } else if format == 9 {
        Some("CF_PALETTE")
    } else if format == 10 {
        Some("CF_PENDATA")
    } else if format == 11 {
        Some("CF_RIFF")
    } else if format == 12 {
        Some("CF_WAVE")
    } else if format == 13 {
        Some("CF_UNICODETEXT")
    } else if format == 14 {
        Some("CF_ENHMETAFILE")
    } else if format == 15 {
        Some("CF_HDROP")
    } else if format == 16 {
        Some("CF_LOCALE")
    } else if format == 17 {
        Some("CF_DIBV5")
    } else {
        None
    }
}

/// Why describing the clipboard failed.
#[derive(Debug)]
pub enum ClipboardError {
    /// The format has no registered name and is not a standard format.
    UnnamedFormat(u32),
    /// An event arrived that the walk over the clipboard does not expect.
    UnexpectedEvent,
}

impl ClipboardError {
    /// The message shown for this error.
    pub fn message(&self) -> (r: String)
        ensures
            self matches ClipboardError::UnnamedFormat(f) ==> r@
                == "Failed to get clipboard format name for "@ + decimal(f as nat),
            self is UnexpectedEvent ==> r@ == "The clipboard walk received an unexpected event"@,
    {
        match self {
            ClipboardError::UnnamedFormat(f) => {
                let mut r = String::from_str("Failed to get clipboard format name for ");
                push_decimal(&mut r, *f as u64);
                r
            },
            ClipboardError::UnexpectedEvent => String::from_str(
                "The clipboard walk received an unexpected event",
            ),
        }
    }
}

/// The name shown for clipboard format `format`: the name the system has
/// registered for it (`None` when it reports an empty name), else the
/// standard format's name, else an error.
pub fn clipboard_format_name(format: u32, registered: Option<String>) -> (r: Result<String, ClipboardError>)
    ensures
        registered matches Some(n) ==> r matches Ok(s) && s@ == n@,
        registered is None ==> match standard_format_name(format) {
            Some(n) => r matches Ok(s) && s@ == n,
            None => r matches Err(ClipboardError::UnnamedFormat(f)) && f == format,
        },
{
    match registered {
        Some(n) => Ok(n),
        None => match standard_format(format) {
            Some(n) => Ok(String::from_str(n)),
            None => Err(ClipboardError::UnnamedFormat(format)),
        },
    }
}

/// How the content of a clipboard format is shown.
#[derive(Clone, Copy, Debug, PartialEq, Eq, Structural)]
pub enum ContentKind {
    /// NUL-terminated 8-bit text (`CF_TEXT`, `CF_OEMTEXT`).
    Narrow,
    /// NUL-terminated UTF-16 text (`CF_UNICODETEXT`).
    Wide,
    /// Anything else: only its size is shown.
    Binary,
}

/// How the content of `format` is shown.
pub open spec fn spec_content_kind(format: u32) -> ContentKind {
    if format == 1 || format == 7 {
        ContentKind::Narrow
    } else if format == 13 {
        ContentKind::Wide
    } else {
        ContentKind::Binary
    }
}

/// How the content of `format` is shown.
pub fn content_kind(format: u32) -> (r: ContentKind)
    ensures
        r == spec_content_kind(format),
{
    if format == 1 || format == 7 {
        ContentKind::Narrow
    } else if format == 13 {
        ContentKind::Wide
    } else {
        ContentKind::Binary
    }
}

/// The content of a clipboard format as read from the clipboard.
pub enum ClipboardData {
    /// The bytes of a narrow text block (up to and maybe past its NUL).
    Narrow(Vec<u8>),
    /// The units of a wide text block (up to and maybe past its NUL).
    Wide(Vec<u16>),
    /// The size in bytes of any other block.
    Binary(usize),
}

/// The index of the first occurrence of `x` in `s` (meaningful when `s` contains `x`).
pub open spec fn first_index_of<T>(s: Seq<T>, x: T) -> int {
    choose|i: int| 0 <= i < s.len() && s[i] == x && forall|j: int| 0 <= j < i ==> s[j] != x
}

/// The part of `s` before its first zero (all of `s` if it has none).
pub open spec fn before_nul<T>(s: Seq<T>, zero: T) -> Seq<T> {
    if s.contains(zero) {
        s.take(first_index_of(s, zero))
    } else {
        s
    }
}

/// The text `String::from_utf8_lossy` makes of `bytes`.
pub uninterp spec fn utf8_lossy(bytes: Seq<u8>) -> Seq<char>;

/// UTF-16 decoding that puts U+FFFD in place of each unpaired surrogate, as
/// `String::from_utf16_lossy` does.
pub open spec fn utf16_lossy(units: Seq<u16>) -> Seq<char>
    decreases units.len(),
{
    if units.len() == 0 {
        seq![]
    } else if units[0] < 0xD800 || units[0] > 0xDFFF {
        seq![units[0] as char] + utf16_lossy(units.skip(1))
    } else if units[0] <= 0xDBFF && units.len() >= 2 && 0xDC00 <= units[1] <= 0xDFFF {
        seq![(0x10000 + (units[0] - 0xD800) * 0x400 + (units[1] - 0xDC00)) as char]
            + utf16_lossy(units.skip(2))
    } else {
        seq!['\u{FFFD}'] + utf16_lossy(units.skip(1))
    }
}

/// Decodes with `String::from_utf8_lossy`. Claimed: the result is the named
/// lossy decoding of the bytes, and for valid UTF-8 it is the decoded text.
#[verifier::external_body]
fn decode_utf8_lossy(bytes: &[u8]) -> (r: String)
    ensures
        r@ == utf8_lossy(bytes@),
        valid_utf8(bytes@) ==> r@ == decode_utf8(bytes@),
{
    String::from_utf8_lossy(bytes).into_owned()
}

/// Decodes with `String::from_utf16_lossy`. Claimed: the result is the
/// lossy UTF-16 decoding that `utf16_lossy` states.
#[verifier::external_body]
fn decode_utf16_lossy(units: &[u16]) -> (r: String)
    ensures
        r@ == utf16_lossy(units@),
{
    String::from_utf16_lossy(units)
}

/// The number of items before the first `zero` of `v` (its length if none).
fn len_before_nul<T: PartialEq + Copy>(v: &Vec<T>, zero: T) -> (n: usize)
    requires
        vstd::laws_eq::obeys_concrete_eq::<T>(),
    ensures
        v@.take(n as int) == before_nul(v@, zero),
        n <= v.len(),
{
    proof {
        reveal(vstd::laws_eq::obeys_concrete_eq);
    }
    let mut i: usize = 0;
    while i < v.len()
        invariant
            i <= v.len(),
            vstd::laws_eq::obeys_concrete_eq::<T>(),
            forall|j: int| 0 <= j < i ==> v@[j] != zero,
        decreases v.len() - i,
    {
        proof {
            reveal(vstd::laws_eq::obeys_concrete_eq);
        }
        if v[i] == zero {
            proof {
                assert(v@[i as int] == zero);
                assert(v@.contains(zero));
                let k = first_index_of(v@, zero);
                if k < i {
                    assert(v@[k] != zero);
                }
                if k > i {
                    assert(v@[i as int] != zero);
                }
                assert(k == i);
            }
            return i;
        }
        i = i + 1;
    }
    proof {
        assert(!v@.contains(zero));
        assert(v@.take(i as int) =~= v@);
    }
    i
}

/// How the content of a clipboard format is shown.
pub open spec fn content_text(data: ClipboardData) -> Seq<char> {
    match data {
        ClipboardData::Narrow(b) => utf8_lossy(before_nul(b@, 0u8)),
        ClipboardData::Wide(u) => utf16_lossy(before_nul(u@, 0u16)),
        ClipboardData::Binary(size) => "[Binary data, "@ + decimal(size as nat) + " bytes]"@,
    }
}

/// Shows the content of a clipboard format: text up to its terminating NUL,
/// or the size of binary data.
pub fn describe_content(data: &ClipboardData) -> (r: String)
    ensures
        r@ == content_text(*data),
{
    match data {
        ClipboardData::Narrow(b) => {
            proof {
                broadcast use vstd::laws_eq::group_laws_eq;
                assert(vstd::laws_eq::obeys_concrete_eq::<u8>());
            }
            let n = len_before_nul(b, 0u8);
            let slice = vstd::slice::slice_subrange(b.as_slice(), 0, n);
            decode_utf8_lossy(slice)
        },
        ClipboardData::Wide(u) => {
            proof {
                broadcast use vstd::laws_eq::group_laws_eq;
                assert(vstd::laws_eq::obeys_concrete_eq::<u16>());
            }
            let n = len_before_nul(u, 0u16);
            let slice = vstd::slice::slice_subrange(u.as_slice(), 0, n);
            decode_utf16_lossy(slice)
        },
        ClipboardData::Binary(size) => {
            let mut r = String::from_str("[Binary data, ");
            push_decimal(&mut r, *size as u64);
            r.append(" bytes]");
            r
        },
    }
}

/// The text of the clipboard report, built section by section.
pub struct ClipboardReport {
    pub text: String,
}

impl ClipboardReport {
    /// An empty report.
    pub fn new() -> (r: ClipboardReport)
        ensures
            r.text@ == Seq::<char>::empty(),
    {
        ClipboardReport { text: String::new() }
    }

    /// Opens the list of files on the clipboard.
    pub fn add_file_count(&mut self, count: u32)
        ensures
            final(self).text@ == old(self).text@ + "Found "@ + decimal(count as nat)
                + " files in clipboard:\n"@,
    {
        self.text.append("Found ");
        push_decimal(&mut self.text, count as u64);
        self.text.append(" files in clipboard:\n");
    }

    /// One file of the list.
    pub fn add_file(&mut self, path: &str)
        ensures
            final(self).text@ == old(self).text@ + "- "@ + path@ + "\n"@,
    {
        self.text.append("- ");
        self.text.append(path);
        self.text.append("\n");
    }

    /// The heading of one clipboard format.
    pub fn add_format(&mut self, name: &str, format: u32)
        ensures
            final(self).text@ == old(self).text@ + "\nFormat: "@ + name@ + " (0x"@ + hex_upper(
                format as nat,
            ) + ")\n"@,
    {
        self.text.append("\nFormat: ");
        self.text.append(name);
        self.text.append(" (0x");
        push_hex_upper(&mut self.text, format as u64);
        self.text.append(")\n");
    }

    /// The content of the last format.
    pub fn add_content(&mut self, content: &str)
        ensures
            final(self).text@ == old(self).text@ + "Content: "@ + content@ + "\n"@,
    {
        self.text.append("Content: ");
        self.text.append(content);
        self.text.append("\n");
    }
}

// ---------------------------------------------------------------- the walk

/// What the walk over the clipboard asks the caller to do next.
#[derive(Debug)]
pub enum WalkAction {
    /// Read the list of files on the clipboard, if it holds one; send
    /// `FileList` or `NoFileList`.
    ReadFileList,
    /// Ask for the clipboard format after this one (0: the first); send `Format`.
    NextFormat(u32),
    /// Ask for the name the system registered for this format; send `Name`.
    RegisteredName(u32),
    /// Read the data of this format the way `ContentKind` says; send `Content`.
    ReadContent(u32, ContentKind),
    /// The walk is over: the report, or why there is none.
    Finish(Result<String, ClipboardError>),
}

/// What the caller reports back after performing an action.
pub enum WalkEvent {
    /// The clipboard holds a file list of `count` files; `paths` are those
    /// whose path could be read, in order.
    FileList { count: u32, paths: Vec<String> },
    /// The clipboard holds no file list.
    NoFileList,
    /// The next format (0: there is none).
    Format(u32),
    /// The registered name of the format (`None` when the system has none).
    Name(Option<String>),
    /// The data of the format (`None` when it could not be read).
    Content(Option<ClipboardData>),
}

/// Where the walk stands.
#[derive(Clone, Copy, Debug, PartialEq, Eq, Structural)]
pub enum WalkPhase {
    Files,
    Formats { last: u32 },
    Naming { format: u32 },
    Reading { format: u32 },
    Finished,
}

/// The walk over the clipboard that builds its report.
pub struct ClipboardWalk {
    pub report: ClipboardReport,
    pub phase: WalkPhase,
}

pub struct WalkView {
    pub text: Seq<char>,
    pub phase: WalkPhase,
}

pub enum WalkActionView {
    ReadFileList,
    NextFormat(u32),
    RegisteredName(u32),
    ReadContent(u32, ContentKind),
    Finish(Result<Seq<char>, ClipboardError>),
}

pub enum WalkEventView {
    FileList { count: u32, paths: Seq<Seq<char>> },
    NoFileList,
    Format(u32),
    Name(Option<Seq<char>>),
    Content(Option<ClipboardData>),
}

impl View for ClipboardWalk {
    type V = WalkView;

    open spec fn view(&self) -> WalkView {
        WalkView { text: self.report.text@, phase: self.phase }
    }
}

impl View for WalkAction {
    type V = WalkActionView;

    open spec fn view(&self) -> WalkActionView {
        match self {
            WalkAction::ReadFileList => WalkActionView::ReadFileList,
            WalkAction::NextFormat(f) => WalkActionView::NextFormat(*f),
            WalkAction::RegisteredName(f) => WalkActionView::RegisteredName(*f),
            WalkAction::ReadContent(f, k) => WalkActionView::ReadContent(*f, *k),
            WalkAction::Finish(r) => WalkActionView::Finish(
                match r {
                    Ok(t) => Ok(t@),
                    Err(e) => Err(*e),
                },
            ),
        }
    }
}

impl View for WalkEvent {
    type V = WalkEventView;

    open spec fn view(&self) -> WalkEventView {
        match self {
            WalkEvent::FileList { count, paths } => WalkEventView::FileList {
                count: *count,
                paths: paths.deep_view(),
            },
            WalkEvent::NoFileList => WalkEventView::NoFileList,
            WalkEvent::Format(f) => WalkEventView::Format(*f),
            WalkEvent::Name(n) => WalkEventView::Name(crate::config::opt_view(*n)),
            WalkEvent::Content(c) => WalkEventView::Content(*c),
        }
    }
}

/// The lines listing the files on the clipboard.
pub open spec fn file_lines(paths: Seq<Seq<char>>) -> Seq<char>
    decreases paths.len(),
{
    if paths.len() == 0 {
        seq![]
    } else {
        file_lines(paths.drop_last()) + "- "@ + paths.last() + "\n"@
    }
}

/// The report's section on the file list.
pub open spec fn file_section(count: u32, paths: Seq<Seq<char>>) -> Seq<char> {
    "Found "@ + decimal(count as nat) + " files in clipboard:\n"@ + file_lines(paths)
}

/// The heading of one format in the report.
pub open spec fn format_heading(name: Seq<char>, format: u32) -> Seq<char> {
    "\nFormat: "@ + name + " (0x"@ + hex_upper(format as nat) + ")\n"@
}

/// The line showing a format's content.
pub open spec fn content_line(data: ClipboardData) -> Seq<char> {
    "Content: "@ + content_text(data) + "\n"@
}

/// The name shown for `format` given its registered name, or the error.
pub open spec fn format_name_result(format: u32, registered: Option<Seq<char>>) -> Result<Seq<char>, ClipboardError> {
    match registered {
        Some(n) => Ok(n),
        None => match standard_format_name(format) {
            Some(n) => Ok(n),
            None => Err(ClipboardError::UnnamedFormat(format)),
        },
    }
}

pub open spec fn walk_finish(s: WalkView, r: Result<Seq<char>, ClipboardError>) -> (WalkView, WalkActionView) {
    (WalkView { phase: WalkPhase::Finished, ..s }, WalkActionView::Finish(r))
}

/// One step of the walk: the next state and action after `e`. The report
/// lists the files first, then each format in the order the clipboard gives
/// them, each with its content when it could be read; a format without a
/// name ends the walk with an error.
pub open spec fn walk_transition(s: WalkView, e: WalkEventView) -> (WalkView, WalkActionView) {
    match s.phase {
        WalkPhase::Files => match e {
            WalkEventView::FileList { count, paths } => (
                WalkView { text: s.text + file_section(count, paths), phase: WalkPhase::Formats { last: 0 } },
                WalkActionView::NextFormat(0),
            ),
            WalkEventView::NoFileList => (
                WalkView { text: s.text, phase: WalkPhase::Formats { last: 0 } },
                WalkActionView::NextFormat(0),
            ),
            _ => walk_finish(s, Err(ClipboardError::UnexpectedEvent)),
        },
        WalkPhase::Formats { last } => match e {
            WalkEventView::Format(f) => if f == 0 {
                walk_finish(s, Ok(s.text))
            } else {
                (
                    WalkView { text: s.text, phase: WalkPhase::Naming { format: f } },
                    WalkActionView::RegisteredName(f),
                )
            },
            _ => walk_finish(s, Err(ClipboardError::UnexpectedEvent)),
        },
        WalkPhase::Naming { format } => match e {
            WalkEventView::Name(registered) => match format_name_result(format, registered) {
                Ok(name) => (
                    WalkView {
                        text: s.text + format_heading(name, format),
                        phase: WalkPhase::Reading { format },
                    },
                    WalkActionView::ReadContent(format, spec_content_kind(format)),
                ),
                Err(err) => walk_finish(s, Err(err)),
            },
            _ => walk_finish(s, Err(ClipboardError::UnexpectedEvent)),
        },
        WalkPhase::Reading { format } => match e {
            WalkEventView::Content(data) => (
                WalkView {
                    text: match data {
                        Some(d) => s.text + content_line(d),
                        None => s.text,
                    },
                    phase: WalkPhase::Formats { last: format },
                },
                WalkActionView::NextFormat(format),
            ),
            _ => walk_finish(s, Err(ClipboardError::UnexpectedEvent)),
        },
        WalkPhase::Finished => walk_finish(s, Err(ClipboardError::UnexpectedEvent)),
    }
}

impl ClipboardWalk {
    /// Starts the walk with an empty report: first the file list.
    pub fn start() -> (r: (ClipboardWalk, WalkAction))
        ensures
            r.0@ == (WalkView { text: Seq::<char>::empty(), phase: WalkPhase::Files }),
            r.1@ == WalkActionView::ReadFileList,
    {
        (ClipboardWalk { report: ClipboardReport::new(), phase: WalkPhase::Files }, WalkAction::ReadFileList)
    }

    fn finish(self, r: Result<String, ClipboardError>) -> (res: (ClipboardWalk, WalkAction))
        ensures
            (res.0@, res.1@) == walk_finish(
                self@,
                match r {
                    Ok(t) => Ok(t@),
                    Err(e) => Err(e),
                },
            ),
    {
        (ClipboardWalk { report: self.report, phase: WalkPhase::Finished }, WalkAction::Finish(r))
    }

    /// Advances the walk by the outcome of the last action.
    pub fn step(self, event: WalkEvent) -> (r: (ClipboardWalk, WalkAction))
        ensures
            (r.0@, r.1@) == walk_transition(self@, event@),
    {
        let ClipboardWalk { report, phase } = self;
        let mut report = report;
        let ghost start = report.text@;
        match phase {
            WalkPhase::Files => match event {
                WalkEvent::FileList { count, paths } => {
                    report.add_file_count(count);
                    let mut i: usize = 0;
                    while i < paths.len()
                        invariant
                            i <= paths.len(),
                            report.text@ == start + "Found "@ + decimal(count as nat)
                                + " files in clipboard:\n"@ + file_lines(paths.deep_view().take(i as int)),
                        decreases paths.len() - i,
                    {
                        let ghost before = report.text@;
                        report.add_file(paths[i].as_str());
                        proof {
                            let next = paths.deep_view().take(i + 1);
                            assert(next.drop_last() =~= paths.deep_view().take(i as int));
                            assert(next.last() == paths[i as int]@);
                        }
                        i = i + 1;
                    }
                    proof {
                        assert(paths.deep_view().take(i as int) =~= paths.deep_view());
                        assert(report.text@ =~= start + file_section(count, paths.deep_view()));
                    }
                    (ClipboardWalk { report, phase: WalkPhase::Formats { last: 0 } }, WalkAction::NextFormat(0))
                },
                WalkEvent::NoFileList => (
                    ClipboardWalk { report, phase: WalkPhase::Formats { last: 0 } },
                    WalkAction::NextFormat(0),
                ),
                _ => ClipboardWalk { report, phase }.finish(Err(ClipboardError::UnexpectedEvent)),
            },
            WalkPhase::Formats { last } => match event {
                WalkEvent::Format(f) => {
                    if f == 0 {
                        let text = report.text.clone();
                        ClipboardWalk { report, phase }.finish(Ok(text))
                    } else {
                        (
                            ClipboardWalk { report, phase: WalkPhase::Naming { format: f } },
                            WalkAction::RegisteredName(f),
                        )
                    }
                },
                _ => ClipboardWalk { report, phase }.finish(Err(ClipboardError::UnexpectedEvent)),
            },
            WalkPhase::Naming { format } => match event {
                WalkEvent::Name(registered) => match clipboard_format_name(format, registered) {
                    Ok(name) => {
                        report.add_format(name.as_str(), format);
                        proof {
                            assert(report.text@ =~= start + format_heading(name@, format));
                        }
                        (
                            ClipboardWalk { report, phase: WalkPhase::Reading { format } },
                            WalkAction::ReadContent(format, content_kind(format)),
                        )
                    },
                    Err(err) => ClipboardWalk { report, phase }.finish(Err(err)),
                },
                _ => ClipboardWalk { report, phase }.finish(Err(ClipboardError::UnexpectedEvent)),
            },
            WalkPhase::Reading { format } => match event {
                WalkEvent::Content(data) => {
                    match &data {
                        Some(d) => {
                            let content = describe_content(d);
                            report.add_content(content.as_str());
                            proof {
                                assert(report.text@ =~= start + content_line(*d));
                            }
                        },
                        None => {},
                    }
                    (ClipboardWalk { report, phase: WalkPhase::Formats { last: format } }, WalkAction::NextFormat(format))
                },
                _ => ClipboardWalk { report, phase }.finish(Err(ClipboardError::UnexpectedEvent)),
            },
            WalkPhase::Finished => ClipboardWalk { report, phase }.finish(Err(ClipboardError::UnexpectedEvent)),
        }
    }
}


/// The report only grows: each step keeps what was written so far, and a
/// finished report is exactly what was written.
pub proof fn law_report_only_grows(s: WalkView, e: WalkEventView)
    ensures
        walk_transition(s, e).0.text.len() >= s.text.len(),
        walk_transition(s, e).0.text.subrange(0, s.text.len() as int) == s.text,
        forall|t: Seq<char>| walk_transition(s, e).1 == WalkActionView::Finish(Ok(t)) ==> t == s.text,
{
    let t = walk_transition(s, e).0.text;
    assert(t.subrange(0, s.text.len() as int) =~= s.text);
}

/// A format that has neither a registered nor a standard name ends the walk
/// with an error naming that format; nothing more is reported.
pub proof fn law_unnamed_format_aborts(s: WalkView, format: u32)
    requires
        s.phase == (WalkPhase::Naming { format }),
        standard_format_name(format) is None,
    ensures
        walk_transition(s, WalkEventView::Name(None)).1 == WalkActionView::Finish(
            Err(ClipboardError::UnnamedFormat(format)),
        ),
        walk_transition(s, WalkEventView::Name(None)).0.phase == WalkPhase::Finished,
{
}


/// The line listing one file.
pub open spec fn file_line(path: Seq<char>) -> Seq<char> {
    "- "@ + path + "\n"@
}

proof fn lemma_file_lines_flatten(paths: Seq<Seq<char>>)
    ensures
        file_lines(paths) == paths.map_values(|p: Seq<char>| file_line(p)).flatten_alt(),
    decreases paths.len(),
{
    let lines = paths.map_values(|p: Seq<char>| file_line(p));
    if paths.len() > 0 {
        lemma_file_lines_flatten(paths.drop_last());
        assert(lines.drop_last() =~= paths.drop_last().map_values(|p: Seq<char>| file_line(p)));
        assert(lines.last() == file_line(paths.last()));
        assert(file_lines(paths) =~= lines.drop_last().flatten_alt() + lines.last());
    } else {
        assert(lines =~= Seq::<Seq<char>>::empty());
    }
}

/// A file list on the clipboard adds to the report the count line and then
/// one `- PATH` line for every path, in order, and nothing else; the walk
/// then turns to the formats.
pub proof fn law_file_list_lists_every_path(s: WalkView, count: u32, paths: Seq<Seq<char>>)
    requires
        s.phase == WalkPhase::Files,
    ensures
        walk_transition(s, WalkEventView::FileList { count, paths }).0.text == s.text + "Found "@
            + decimal(count as nat) + " files in clipboard:\n"@ + paths.map_values(
            |p: Seq<char>| file_line(p),
        ).flatten(),
        walk_transition(s, WalkEventView::FileList { count, paths }).0.phase == (WalkPhase::Formats {
            last: 0,
        }),
        walk_transition(s, WalkEventView::FileList { count, paths }).1 == WalkActionView::NextFormat(0),
{
    lemma_file_lines_flatten(paths);
    paths.map_values(|p: Seq<char>| file_line(p)).lemma_flatten_and_flatten_alt_are_equivalent();
    assert(walk_transition(s, WalkEventView::FileList { count, paths }).0.text =~= s.text + "Found "@
        + decimal(count as nat) + " files in clipboard:\n"@ + file_lines(paths));
}

} // verus!
