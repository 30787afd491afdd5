//! The calls that leave the library, each with the contract that the rest relies on.

use crate::text::texts;
use vstd::prelude::*;

verus! {

/// `anyhow::Error`: an error with the errors that caused it.
#[verifier::external_type_specification]
#[verifier::external_body]
pub struct ExAnyhowError(anyhow::Error);

/// The ways in which the chain of `err` can be read: each is the list of the texts that the
/// error, its cause, the cause of that and so on display, the outermost first.
///
/// What an error displays is up to its type and need not be the same each time, so there may be
/// more than one reading.
pub uninterp spec fn chain_readings(err: anyhow::Error) -> Set<Seq<Seq<char>>>;

/// Whether the chain of `err` can be read whenever that is asked for: it comes to an end, and none
/// of its errors fails to be displayed.
pub uninterp spec fn can_be_shown(err: anyhow::Error) -> bool;

/// The readings of an error that displays `text` and was caused by one with the given readings,
/// which hold a text at least.
pub open spec fn readings_behind(text: Seq<char>, readings: Set<Seq<Seq<char>>>) -> Set<
    Seq<Seq<char>>,
> {
    Set::new(
        |reading: Seq<Seq<char>>|
            reading.len() > 1 && reading[0] == text && readings.contains(reading.skip(1)),
    )
}

/// Reads the chain of `err` with `anyhow::Error::chain`, which starts at the error itself and
/// follows the sources, and turns each of its errors into the text that it displays. It does not
/// return where the sources come to no end, and panics where an error fails to be displayed.
#[verifier::external_body]
pub(crate) fn error_chain(err: &anyhow::Error) -> (messages: Vec<String>)
    requires
        can_be_shown(*err),
    ensures
        messages@.len() > 0,
        chain_readings(*err).contains(texts(messages@)),
{
    err.chain().map(|cause| cause.to_string()).collect()
}

/// Makes an error of a text with `anyhow::Error::msg`: it displays that text,
/// which does not fail, and has no cause.
#[verifier::external_body]
pub(crate) fn error_from_text(text: String) -> (err: anyhow::Error)
    ensures
        chain_readings(err) == set![seq![text@]],
        can_be_shown(err),
{
    anyhow::Error::msg(text)
}

/// Puts a text in front of an error with `anyhow::Error::context`: the result displays the text,
/// and what it was put in front of is its cause, chain and all. A text can be displayed, so the
/// result can be shown where what it was put in front of can.
#[verifier::external_body]
pub(crate) fn error_with_context(err: anyhow::Error, text: String) -> (wrapped: anyhow::Error)
    ensures
        chain_readings(wrapped) == readings_behind(text@, chain_readings(err)),
        can_be_shown(wrapped) == can_be_shown(err),
{
    err.context(text)
}

/// What a colour setting makes of a text.
///
/// Whether colours are on is looked up more than once while a text is shown, and may change
/// in between, so that the text can also come out plain with a reset behind.
pub enum Colouring {
    /// The text comes out in its colour.
    On,
    /// The text comes out plain.
    Off,
    /// The text comes out plain, with a reset behind.
    Reset,
}

impl Colouring {
    /// What comes before a text in the colour that `code` switches on.
    pub open spec fn before(self, code: Seq<char>) -> Seq<char> {
        match self {
            Colouring::On => code,
            _ => Seq::empty(),
        }
    }

    /// What comes after a text.
    pub open spec fn after(self) -> Seq<char> {
        match self {
            Colouring::Off => Seq::empty(),
            _ => "\u{1b}[0m"@,
        }
    }

    /// A text in the colour that `code` switches on.
    pub open spec fn coloured(self, code: Seq<char>, text: Seq<char>) -> Seq<char> {
        self.before(code) + text + self.after()
    }

    /// A text in purple.
    pub open spec fn purple(self, text: Seq<char>) -> Seq<char> {
        self.coloured("\u{1b}[35m"@, text)
    }

    /// A text in green.
    pub open spec fn green(self, text: Seq<char>) -> Seq<char> {
        self.coloured("\u{1b}[32m"@, text)
    }
}

/// Whether `shown` is `text` in purple under some colour setting.
pub open spec fn in_purple(text: Seq<char>, shown: Seq<char>) -> bool {
    exists|colours: Colouring| shown == #[trigger] colours.purple(text)
}

/// Whether `shown` is `text` in green under some colour setting.
pub open spec fn in_green(text: Seq<char>, shown: Seq<char>) -> bool {
    exists|colours: Colouring| shown == #[trigger] colours.green(text)
}

/// Shows a text in purple with `colored::Colorize::purple`: the escape sequence of the colour,
/// the text and the reset sequence, where the terminal and the environment ask for colours.
/// The text holds no escape sequence of its own, which would be rewritten.
#[verifier::external_body]
fn purple(text: &str) -> (shown: String)
    requires
        !text@.contains('\u{1b}'),
    ensures
        in_purple(text@, shown@),
{
    colored::Colorize::purple(text).to_string()
}

/// Shows a text in green with `colored::Colorize::green`, as [`purple`] does in purple.
#[verifier::external_body]
fn green(text: &str) -> (shown: String)
    requires
        !text@.contains('\u{1b}'),
    ensures
        in_green(text@, shown@),
{
    colored::Colorize::green(text).to_string()
}

/// Whether `shown` came out when `text` was shown in purple, so that the terminal and the
/// environment had their say.
pub closed spec fn came_purple(text: Seq<char>, shown: Seq<char>) -> bool {
    exists|given: &str, out: String|
        given@ == text && out@ == shown && #[trigger] call_ensures(purple, (given,), out)
}

/// Whether `shown` came out when `text` was shown in green, so that the terminal and the
/// environment had their say.
pub closed spec fn came_green(text: Seq<char>, shown: Seq<char>) -> bool {
    exists|given: &str, out: String|
        given@ == text && out@ == shown && #[trigger] call_ensures(green, (given,), out)
}

/// Whether `shown` is what came of showing `text` in purple.
pub open spec fn is_purple(text: Seq<char>, shown: Seq<char>) -> bool {
    came_purple(text, shown) && in_purple(text, shown)
}

/// Whether `shown` is what came of showing `text` in green.
pub open spec fn is_green(text: Seq<char>, shown: Seq<char>) -> bool {
    came_green(text, shown) && in_green(text, shown)
}

/// Shows a text in purple, as the terminal and the environment ask for.
pub(crate) fn shown_purple(text: &str) -> (shown: String)
    requires
        !text@.contains('\u{1b}'),
    ensures
        is_purple(text@, shown@),
{
    let shown = purple(text);
    proof {
        assert(call_ensures(purple, (text,), shown));
    }
    shown
}

/// Shows a text in green, as the terminal and the environment ask for.
pub(crate) fn shown_green(text: &str) -> (shown: String)
    requires
        !text@.contains('\u{1b}'),
    ensures
        is_green(text@, shown@),
{
    let shown = green(text);
    proof {
        assert(call_ensures(green, (text,), shown));
    }
    shown
}

/// Captures and formats the stack of the running thread with `backtrace::Backtrace::new`. What it
/// holds is up to the machine and the moment, so nothing is stated of it.
#[verifier::external_body]
fn backtrace_text() -> (trace: String) {
    format!("{:?}", backtrace::Backtrace::new())
}

/// Whether `trace` came out when the stack of the running thread was captured.
pub closed spec fn is_backtrace(trace: Seq<char>) -> bool {
    exists|out: String| out@ == trace && #[trigger] call_ensures(backtrace_text, (), out)
}

/// Captures the stack of the running thread.
pub(crate) fn captured_backtrace() -> (trace: String)
    ensures
        is_backtrace(trace@),
{
    let trace = backtrace_text();
    proof {
        assert(call_ensures(backtrace_text, (), trace));
    }
    trace
}

/// `miette::Report`: a report with the reports that it was wrapped around.
#[verifier::external_type_specification]
#[verifier::external_body]
pub struct ExReport(miette::Report);

/// The texts of a report that is made of texts and a help text alone, the outermost first, or
/// none of any other report.
pub uninterp spec fn report_layers(report: miette::Report) -> Seq<Seq<char>>;

/// The help text of a report that is made of texts and a help text alone.
pub uninterp spec fn report_help(report: miette::Report) -> Seq<char>;

/// What a report that is made of texts and a help text alone looks like in the graphical form,
/// in unicode and with colours: the outermost text, the texts within it as its causes, and the
/// help text below them.
pub uninterp spec fn rendered(layers: Seq<Seq<char>>, help: Seq<char>) -> Seq<char>;

/// Makes a report of a text and a help text with `miette::Report::new`, of a
/// `miette::MietteDiagnostic` that has these two and nothing else.
#[verifier::external_body]
pub(crate) fn report_from_text(text: String, help: String) -> (report: miette::Report)
    ensures
        report_layers(report) == seq![text@],
        report_help(report) == help@,
{
    miette::Report::new(miette::MietteDiagnostic::new(text).with_help(help))
}

/// Wraps a report in a text with `miette::Report::wrap_err`: the text becomes the outermost one,
/// and the help text stays as it is.
#[verifier::external_body]
pub(crate) fn report_wrapped(report: miette::Report, text: String) -> (wrapped: miette::Report)
    requires
        report_layers(report).len() > 0,
    ensures
        report_layers(wrapped) == seq![text@] + report_layers(report),
        report_help(wrapped) == report_help(report),
{
    report.wrap_err(text)
}

/// Renders a report with `miette::GraphicalReportHandler::render_report`, in the unicode theme
/// and at the handler's own width of 200 columns. The terminal and the environment have no say
/// in either. Writing to a string does not fail, nor does showing a text.
#[verifier::external_body]
pub(crate) fn report_rendered(report: &miette::Report) -> (out: String)
    requires
        report_layers(*report).len() > 0,
    ensures
        out@ == rendered(report_layers(*report), report_help(*report)),
{
    let mut out = String::new();
    miette::GraphicalReportHandler::new_themed(miette::GraphicalTheme::unicode())
        .render_report(&mut out, report.as_ref())
        .unwrap();
    out
}

/// `std::path::PathBuf`: a path of the platform's kind.
#[verifier::external_type_specification]
#[verifier::external_body]
pub struct ExPathBuf(std::path::PathBuf);

/// The bytes that a path is made of, in the encoding of the platform, which extends UTF-8.
pub uninterp spec fn path_bytes(path: std::path::PathBuf) -> Seq<u8>;

/// What `std::path::Path::join` makes of two paths: the second within the first, or the second
/// alone where that is absolute.
pub uninterp spec fn joined_bytes(base: Seq<u8>, path: Seq<u8>) -> Seq<u8>;

/// The file name of a path, as `std::path::Path::file_name` gives it: the final component of the
/// path, or none where that is not a name.
pub uninterp spec fn file_name_bytes(path: Seq<u8>) -> Option<Seq<u8>>;

/// What `std::path::Path::with_file_name` makes of a path: the path with another file name.
pub uninterp spec fn bytes_with_file_name(path: Seq<u8>, name: Seq<u8>) -> Seq<u8>;

/// The bytes of a path, where there is one.
pub open spec fn optional_bytes(path: Option<std::path::PathBuf>) -> Option<Seq<u8>> {
    match path {
        Some(path) => Some(path_bytes(path)),
        None => None,
    }
}

/// Whether `std::path::PathBuf`s of these bytes are equal: they have the same components.
pub uninterp spec fn equal_paths(left: Seq<u8>, right: Seq<u8>) -> bool;

/// What a path of these bytes shows for debugging: the path in quotes, with what cannot be shown
/// escaped.
pub uninterp spec fn path_debug_text(path: Seq<u8>) -> Seq<char>;

/// A clone of a path is the same path.
pub assume_specification[ <std::path::PathBuf as Clone>::clone ](
    path: &std::path::PathBuf,
) -> (same: std::path::PathBuf)
    ensures
        same == *path,
;

/// Makes a path of a text with `std::path::PathBuf::from`: a text is encoded in UTF-8, and the path
/// is made of these bytes.
#[verifier::external_body]
pub(crate) fn path_from_text(text: &str) -> (path: std::path::PathBuf)
    ensures
        path_bytes(path) == vstd::utf8::encode_utf8(text@),
{
    std::path::PathBuf::from(text)
}

/// Puts a suffix behind a path with the `push` of the `std::ffi::OsString` that the path is made
/// of: the bytes of the suffix follow those of the path, and no separator comes in between.
#[verifier::external_body]
pub(crate) fn with_suffix(path: &std::path::PathBuf, suffix: &str) -> (changed:
    std::path::PathBuf)
    ensures
        path_bytes(changed) == path_bytes(*path) + vstd::utf8::encode_utf8(suffix@),
{
    let mut changed = path.clone();
    changed.as_mut_os_string().push(suffix);
    changed
}

/// Calls `std::path::Path::file_name`, and makes a path of the name.
#[verifier::external_body]
pub(crate) fn file_name(path: &std::path::PathBuf) -> (name: Option<std::path::PathBuf>)
    ensures
        optional_bytes(name) == file_name_bytes(path_bytes(*path)),
{
    path.file_name().map(std::path::PathBuf::from)
}

/// Calls `std::path::Path::with_file_name`.
#[verifier::external_body]
pub(crate) fn with_file_name(path: &std::path::PathBuf, name: &std::path::PathBuf) -> (changed:
    std::path::PathBuf)
    ensures
        path_bytes(changed) == bytes_with_file_name(path_bytes(*path), path_bytes(*name)),
{
    path.with_file_name(name)
}

/// Calls `std::path::Path::join`.
#[verifier::external_body]
pub(crate) fn joined(base: &std::path::PathBuf, path: &std::path::PathBuf) -> (joined:
    std::path::PathBuf)
    ensures
        path_bytes(joined) == joined_bytes(path_bytes(*base), path_bytes(*path)),
{
    base.join(path)
}

/// Whether two paths are equal for `std::path::PathBuf`. Paths of the same bytes are.
pub open spec fn agree(left: std::path::PathBuf, right: std::path::PathBuf) -> bool {
    path_bytes(left) == path_bytes(right) || equal_paths(path_bytes(left), path_bytes(right))
}

/// Compares two paths with the `==` of `std::path::PathBuf`. It finds every path equal to itself,
/// as an `Eq` does.
#[verifier::external_body]
pub(crate) fn same_path(left: &std::path::PathBuf, right: &std::path::PathBuf) -> (same: bool)
    ensures
        same == equal_paths(path_bytes(*left), path_bytes(*right)),
        path_bytes(*left) == path_bytes(*right) ==> same,
{
    left == right
}

/// Formats a path for debugging.
#[verifier::external_body]
pub(crate) fn path_debug(path: &std::path::PathBuf) -> (text: String)
    ensures
        text@ == path_debug_text(path_bytes(*path)),
{
    format!("{:?}", path)
}

/// `url::Url`: a URL that has been parsed.
#[verifier::external_type_specification]
#[verifier::external_body]
pub struct ExUrl(url::Url);

/// The serialization of a URL.
pub uninterp spec fn url_chars(url: url::Url) -> Seq<char>;

/// Writes a URL out with `url::Url::as_str`, which gives its serialization, as displaying it does.
#[verifier::external_body]
pub(crate) fn url_text(url: &url::Url) -> (text: String)
    ensures
        text@ == url_chars(*url),
{
    url.as_str().to_string()
}

/// A text that is put in front of an error comes before each reading of the error, and nothing
/// else is read.
pub proof fn law_context_comes_before_the_chain(
    text: Seq<char>,
    readings: Set<Seq<Seq<char>>>,
    reading: Seq<Seq<char>>,
)
    ensures
        readings_behind(text, readings).contains(seq![text] + reading) <==> reading.len() > 0
            && readings.contains(reading),
        readings_behind(text, readings).contains(reading) ==> reading.len() > 1 && reading[0]
            == text && readings.contains(reading.skip(1)),
{
    assert((seq![text] + reading).skip(1) =~= reading);
}

/// A text that was shown in a colour is the text, with the escape sequence of the colour before it
/// or nothing, and with the reset sequence behind it or, where it is not coloured, nothing.
pub proof fn law_coloured_text_holds_the_text(text: Seq<char>, shown: Seq<char>)
    ensures
        is_purple(text, shown) ==> {
            ||| shown == "\u{1b}[35m"@ + text + "\u{1b}[0m"@
            ||| shown == text
            ||| shown == text + "\u{1b}[0m"@
        },
        is_green(text, shown) ==> {
            ||| shown == "\u{1b}[32m"@ + text + "\u{1b}[0m"@
            ||| shown == text
            ||| shown == text + "\u{1b}[0m"@
        },
{
    if is_purple(text, shown) {
        let colours = choose|colours: Colouring| shown == #[trigger] colours.purple(text);
        lemma_coloured(colours, "\u{1b}[35m"@, text);
    }
    if is_green(text, shown) {
        let colours = choose|colours: Colouring| shown == #[trigger] colours.green(text);
        lemma_coloured(colours, "\u{1b}[32m"@, text);
    }
}

/// What a colour setting makes of a text, setting by setting.
proof fn lemma_coloured(colours: Colouring, code: Seq<char>, text: Seq<char>)
    ensures
        colours is On ==> colours.coloured(code, text) == code + text + "\u{1b}[0m"@,
        colours is Off ==> colours.coloured(code, text) == text,
        colours is Reset ==> colours.coloured(code, text) == text + "\u{1b}[0m"@,
{
    assert(Seq::<char>::empty() + text =~= text);
    assert(text + Seq::<char>::empty() =~= text);
}

/// A text that was shown in a colour came out of showing it.
proof fn law_coloured_text_was_shown(text: Seq<char>, shown: Seq<char>)
    ensures
        is_purple(text, shown) ==> exists|given: &str, out: String|
            given@ == text && out@ == shown && #[trigger] call_ensures(purple, (given,), out),
        is_green(text, shown) ==> exists|given: &str, out: String|
            given@ == text && out@ == shown && #[trigger] call_ensures(green, (given,), out),
{
}

/// A backtrace came out of capturing the stack.
proof fn law_backtrace_was_captured(trace: Seq<char>)
    ensures
        is_backtrace(trace) ==> exists|out: String|
            out@ == trace && #[trigger] call_ensures(backtrace_text, (), out),
{
}

/// Paths agree where comparing them says so, and only there.
pub proof fn law_paths_agree_where_they_compare_equal(
    left: std::path::PathBuf,
    right: std::path::PathBuf,
)
    ensures
        path_bytes(left) == path_bytes(right) ==> agree(left, right),
        path_bytes(left) != path_bytes(right) ==> (agree(left, right) <==> equal_paths(
            path_bytes(left),
            path_bytes(right),
        )),
{
}

} // verus!
