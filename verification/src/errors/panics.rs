//! What is reported of a panic.

use crate::errors::call_stack::{blank, ErrorContext};
use crate::outside::{
    captured_backtrace, is_backtrace, rendered, report_from_text, report_help, report_layers,
    report_rendered, report_wrapped,
};
use crate::text::{
    decimal, decimal_text, is_decimal, law_decimal_text_stands_for_its_number, value_of_digits,
};
use vstd::prelude::*;
use vstd::string::*;

verus! {

/// Instructions that can carry an error to the thread that reports it.
pub trait ErrorInstruction: Sized {
    /// Makes an instruction of what is to be reported.
    fn error(err: String) -> Self;
}

/// Whether `instruction` is one that was made of the text `err`.
pub open spec fn carries<T: ErrorInstruction>(instruction: T, err: Seq<char>) -> bool {
    exists|text: String| text@ == err && #[trigger] call_ensures(T::error, (text,), instruction)
}

/// What a report of a panic advises.
pub const PANIC_HELP: &'static str = "If you are seeing this message, it means that something went wrong.\nPlease report this error to the github issue.\n(https://github.com/zellij-org/zellij/issues)\n\nAlso, if you want to see the backtrace, you can set the `RUST_BACKTRACE` environment variable to `1`.\n";

/// Whether the variable that asks for backtraces does ask for one: it is set, and neither empty
/// nor zero.
pub open spec fn wants_backtrace(rust_backtrace: Option<String>) -> bool {
    rust_backtrace is Some && rust_backtrace->0@.len() > 0 && rust_backtrace->0@ != "0"@
}

/// The part of a panic's text that holds a backtrace.
pub open spec fn backtrace_section_text(trace: Seq<char>) -> Seq<char> {
    "\n\nPanic backtrace:\n"@ + trace
}

/// Whether `section` is what a panic says of its backtrace: nothing where none is asked for, and
/// a backtrace that was captured, behind a heading, where one is.
pub open spec fn is_backtrace_section(
    rust_backtrace: Option<String>,
    section: Seq<char>,
) -> bool {
    if wants_backtrace(rust_backtrace) {
        exists|trace: Seq<char>| #[trigger]
            is_backtrace(trace) && section == backtrace_section_text(trace)
    } else {
        section == Seq::<char>::empty()
    }
}

/// Builds the part of a panic's text that holds the backtrace `trace`.
pub fn backtrace_section(trace: &str) -> (section: String)
    ensures
        section@ == backtrace_section_text(trace@),
{
    let mut section = "\n\nPanic backtrace:\n".to_owned();
    section.append(trace);
    section
}

/// The message of a panic, as a report shows it.
#[derive(Debug)]
pub struct Panic(pub String);

impl Panic {
    /// Shows the backtrace of the caller, where `rust_backtrace`, the value of the environment
    /// variable of that name, asks for one.
    pub fn show_backtrace(&self, rust_backtrace: &Option<String>) -> (section: String)
        ensures
            is_backtrace_section(*rust_backtrace, section@),
    {
        if let Some(var) = rust_backtrace {
            if !var.as_str().is_empty() && !(*var == "0".to_owned()) {
                let trace = captured_backtrace();
                return backtrace_section(&trace);
            }
        }
        String::new()
    }

    /// Returns what a report of a panic advises.
    pub fn show_help(&self) -> (help: String)
        ensures
            help@ == PANIC_HELP@,
    {
        PANIC_HELP.to_owned()
    }

    /// Shows the message, with what is said of the backtrace behind it.
    pub fn show_with(&self, section: &str) -> (text: String)
        ensures
            text@ == self.0@ + section@,
    {
        let mut text = self.0.clone();
        text.append(section);
        text
    }
}

/// Where in the source a panic came from.
#[derive(Debug)]
pub struct PanicLocation {
    pub file: String,
    pub line: u32,
    pub column: u32,
}

impl PanicLocation {
    /// The location as a report shows it.
    pub open spec fn text(self) -> Seq<char> {
        "At "@ + self.file@ + ":"@ + decimal_text(self.line as nat) + ":"@ + decimal_text(
            self.column as nat,
        )
    }

    /// Shows the location.
    pub fn to_string(&self) -> (text: String)
        ensures
            text@ == self.text(),
    {
        let mut text = "At ".to_owned();
        text.append(&self.file);
        text.append(":");
        text.append(&decimal(self.line as u64));
        text.append(":");
        text.append(&decimal(self.column as u64));
        text
    }
}

/// What is known of a panic.
#[derive(Debug)]
pub struct PanicDetails {
    /// The name of the thread that panicked, where it has one.
    pub thread: Option<String>,
    /// What the panic carries, where that is a string literal.
    pub literal: Option<String>,
    /// What the panic carries, where that is a string.
    pub string: Option<String>,
    /// Where the panic came from, where that is known.
    pub location: Option<PanicLocation>,
}

impl PanicDetails {
    /// The name that the thread goes by.
    pub open spec fn thread_text(self) -> Seq<char> {
        match self.thread {
            Some(name) => name@,
            None => "unnamed"@,
        }
    }

    /// The message of the panic.
    pub open spec fn message_text(self) -> Seq<char> {
        match (self.literal, self.string) {
            (Some(message), _) => message@,
            (None, Some(message)) => message@,
            (None, None) => "An unexpected error occurred!"@,
        }
    }

    /// The message in red.
    pub open spec fn red_message_text(self) -> Seq<char> {
        "\u{1b}[0;31m"@ + self.message_text() + "\u{1b}[0;0m"@
    }

    /// The location of the panic, or nothing where it is not known.
    pub open spec fn location_text(self) -> Seq<char> {
        match self.location {
            Some(location) => location.text(),
            None => Seq::empty(),
        }
    }

    /// What is logged of the panic.
    pub open spec fn log_text(self) -> Seq<char> {
        "Panic occured:\n             thread: "@ + self.thread_text()
            + "\n             location: "@ + self.location_text()
            + "\n             message: "@ + self.message_text()
    }

    /// What a report says of the thread.
    pub open spec fn headline_text(self) -> Seq<char> {
        "Thread '\u{1b}[0;31m"@ + self.thread_text() + "\u{1b}[0;0m' panicked."@
    }

    /// The texts of the report: that the thread panicked, the call stack where one is shown, the
    /// location where it is known, and the message in red with what is said of the backtrace
    /// behind it, each the cause of the one before.
    pub open spec fn report_texts(self, section: Seq<char>, stack: Option<Seq<char>>) -> Seq<
        Seq<char>,
    > {
        seq![self.headline_text()] + (match stack {
            Some(stack) => seq![stack],
            None => seq![],
        }) + (match self.location {
            Some(location) => seq![location.text()],
            None => seq![],
        }) + seq![self.red_message_text() + section]
    }

    /// The report of the panic.
    pub open spec fn report_text(self, section: Seq<char>, stack: Option<Seq<char>>) -> Seq<char> {
        rendered(self.report_texts(section, stack), PANIC_HELP@)
    }

    /// Returns the name that the thread goes by.
    pub fn thread_name(&self) -> (name: &str)
        ensures
            name@ == self.thread_text(),
    {
        match &self.thread {
            Some(name) => name.as_str(),
            None => "unnamed",
        }
    }

    /// Returns the message of the panic: what it carries, where that is text.
    pub fn message(&self) -> (message: &str)
        ensures
            message@ == self.message_text(),
    {
        match &self.literal {
            Some(message) => message.as_str(),
            None => match &self.string {
                Some(message) => message.as_str(),
                None => "An unexpected error occurred!",
            },
        }
    }

    /// Returns the location of the panic, or nothing where it is not known.
    pub fn location_string(&self) -> (text: String)
        ensures
            text@ == self.location_text(),
    {
        match &self.location {
            Some(location) => location.to_string(),
            None => String::new(),
        }
    }

    /// Returns what is logged of the panic.
    pub fn log_message(&self) -> (log: String)
        ensures
            log@ == self.log_text(),
    {
        let mut log = "Panic occured:\n             thread: ".to_owned();
        log.append(self.thread_name());
        log.append("\n             location: ");
        log.append(&self.location_string());
        log.append("\n             message: ");
        log.append(self.message());
        log
    }

    /// Returns the panic as a report shows it, its message in red.
    pub fn panic(&self) -> (panic: Panic)
        ensures
            panic.0@ == self.red_message_text(),
    {
        let mut message = "\u{1b}[0;31m".to_owned();
        message.append(self.message());
        message.append("\u{1b}[0;0m");
        Panic(message)
    }

    /// Returns the report of the panic, given what is said of its backtrace and how its call stack
    /// shows, where it is to be shown.
    pub fn report(&self, section: &str, stack: Option<String>) -> (report: String)
        ensures
            report@ == self.report_text(section@, stack_view(stack)),
    {
        let panic = self.panic();
        let mut report = report_from_text(panic.show_with(section), panic.show_help());
        if let Some(location) = &self.location {
            report = report_wrapped(report, location.to_string());
        }
        let ghost shown = stack_view(stack);
        if let Some(stack) = stack {
            report = report_wrapped(report, stack);
        }
        let mut headline = "Thread '\u{1b}[0;31m".to_owned();
        headline.append(self.thread_name());
        headline.append("\u{1b}[0;0m' panicked.");
        report = report_wrapped(report, headline);
        proof {
            assert(report_layers(report) =~= self.report_texts(section@, shown));
        }
        fmt_report(report)
    }

    /// Returns what is to be done about the panic: the log entry, and whether the report is shown
    /// before the program ends or sent to the thread that shows it.
    pub fn reaction<T: ErrorInstruction>(
        &self,
        section: &str,
        stack: Option<String>,
    ) -> (reaction: PanicReaction<T>)
        ensures
            reaction.follows(*self, section@, stack_view(stack)),
    {
        let log = self.log_message();
        let report = self.report(section, stack);
        let action = if self.thread_name().to_owned() == "main".to_owned() {
            let mut screen = "\u{1b}[2J".to_owned();
            screen.append(&report);
            PanicAction::Exit { screen, status: 1 }
        } else {
            let ghost sent = report;
            let instruction = T::error(report);
            proof {
                assert(call_ensures(T::error, (sent,), instruction));
                assert(carries(instruction, sent@));
            }
            PanicAction::Send(instruction)
        };
        PanicReaction { log, action }
    }
}

/// How a call stack shows, where it is to be shown.
pub open spec fn stack_view(stack: Option<String>) -> Option<Seq<char>> {
    match stack {
        Some(stack) => Some(stack@),
        None => None,
    }
}

/// What is done about a panic.
pub struct PanicReaction<T> {
    /// What is logged.
    pub log: String,
    /// What is done then.
    pub action: PanicAction<T>,
}

/// What is done about a panic once it is logged.
pub enum PanicAction<T> {
    /// Put `screen` on the screen and end the program with `status`.
    Exit { screen: String, status: i32 },
    /// Send an instruction to the thread that reports errors.
    Send(T),
}

impl<T: ErrorInstruction> PanicReaction<T> {
    /// Whether this is what is done about a panic, given what is said of its backtrace and how its
    /// call stack shows: a panic of the main thread is shown on a cleared screen and ends the
    /// program, and one of another thread is made an instruction and sent.
    pub open spec fn follows(
        self,
        details: PanicDetails,
        section: Seq<char>,
        stack: Option<Seq<char>>,
    ) -> bool {
        &&& self.log@ == details.log_text()
        &&& match self.action {
            PanicAction::Exit { screen, status } => {
                &&& details.thread_text() == "main"@
                &&& screen@ == "\u{1b}[2J"@ + details.report_text(section, stack)
                &&& status == 1
            },
            PanicAction::Send(instruction) => {
                &&& details.thread_text() != "main"@
                &&& carries(instruction, details.report_text(section, stack))
            },
        }
    }
}

/// Custom panic handler. Decides what is done about a panic: what is logged, and what is reported
/// to whom. The report holds the current [`ErrorContext`] where that is not empty, and a backtrace
/// where `rust_backtrace`, the value of the environment variable of that name, asks for one.
pub fn handle_panic<T: ErrorInstruction>(
    details: &PanicDetails,
    err_ctx: &ErrorContext,
    rust_backtrace: &Option<String>,
) -> (reaction: PanicReaction<T>)
    ensures
        exists|section: Seq<char>, stack: Option<Seq<char>>|
            {
                &&& is_backtrace_section(*rust_backtrace, section)
                &&& stack is None <==> err_ctx.calls@ == blank()
                &&& stack is Some ==> err_ctx.shows_as(stack->0)
                &&& #[trigger] reaction.follows(*details, section, stack)
            },
{
    let section = details.panic().show_backtrace(rust_backtrace);
    let stack = if err_ctx.is_empty() {
        None
    } else {
        Some(err_ctx.to_string())
    };
    let ghost shown = stack_view(stack);
    let reaction = details.reaction(&section, stack);
    proof {
        assert(reaction.follows(*details, section@, shown));
    }
    reaction
}

/// Renders a report.
fn fmt_report(diag: miette::Report) -> (out: String)
    requires
        report_layers(diag).len() > 0,
    ensures
        out@ == rendered(report_layers(diag), report_help(diag)),
{
    report_rendered(&diag)
}

/// A panic ends the program where it is one of the main thread, and nowhere else.
pub proof fn law_only_the_main_thread_ends_the_program<T: ErrorInstruction>(
    reaction: PanicReaction<T>,
    details: PanicDetails,
    section: Seq<char>,
    stack: Option<Seq<char>>,
)
    requires
        reaction.follows(details, section, stack),
    ensures
        reaction.action is Exit <==> details.thread_text() == "main"@,
{
}

/// A report starts with the thread and ends with the message, and has one text more for each of
/// the call stack and the location that it knows.
pub proof fn law_report_starts_with_the_thread(
    details: PanicDetails,
    section: Seq<char>,
    stack: Option<Seq<char>>,
)
    ensures
        ({
            let texts = details.report_texts(section, stack);
            let of_stack: nat = if stack is Some { 1 } else { 0 };
            let of_location: nat = if details.location is Some { 1 } else { 0 };
            &&& texts.len() == 2 + of_stack + of_location
            &&& texts[0] == details.headline_text()
            &&& texts.last() == details.red_message_text() + section
            &&& stack is Some ==> texts[1] == stack->0
            &&& details.location is Some ==> texts[texts.len() - 2] == details.location->0.text()
        }),
{
}

/// A panic's message is the literal that it carries, or else the string, or else a text that says
/// that nothing is known.
pub proof fn law_message_is_what_the_panic_carries(details: PanicDetails, message: &str)
    requires
        call_ensures(PanicDetails::message, (&details,), message),
    ensures
        details.literal is Some ==> message@ == details.literal->0@,
        details.literal is None && details.string is Some ==> message@ == details.string->0@,
        details.literal is None && details.string is None ==> message@
            == "An unexpected error occurred!"@,
{
}

/// A thread goes by its name, or is unnamed where it has none.
pub proof fn law_thread_goes_by_its_name(details: PanicDetails, name: &str)
    requires
        call_ensures(PanicDetails::thread_name, (&details,), name),
    ensures
        details.thread is Some ==> name@ == details.thread->0@,
        details.thread is None ==> name@ == "unnamed"@,
{
}

/// A location shows its file, its line and its column, the numbers such that they read back.
pub proof fn law_location_shows_file_line_and_column(location: PanicLocation, text: String)
    requires
        call_ensures(PanicLocation::to_string, (&location,), text),
    ensures
        exists|line: Seq<char>, column: Seq<char>|
            {
                &&& #[trigger] is_decimal(line)
                &&& #[trigger] is_decimal(column)
                &&& value_of_digits(line) == location.line
                &&& value_of_digits(column) == location.column
                &&& text@ == "At "@ + location.file@ + ":"@ + line + ":"@ + column
            },
{
    law_decimal_text_stands_for_its_number(location.line as nat);
    law_decimal_text_stands_for_its_number(location.column as nat);
    assert(is_decimal(decimal_text(location.line as nat)));
    assert(is_decimal(decimal_text(location.column as nat)));
}

/// The location of a panic is shown where it is known, and nothing where it is not.
pub proof fn law_known_location_is_shown(details: PanicDetails, text: String, shown: String)
    requires
        call_ensures(PanicDetails::location_string, (&details,), text),
        details.location is Some ==> call_ensures(
            PanicLocation::to_string,
            (&details.location->0,),
            shown,
        ),
    ensures
        details.location is Some ==> text@ == shown@,
        details.location is None ==> text@ == Seq::<char>::empty(),
{
}

/// What is logged of a panic is the thread, the location and the message of it, whatever they are.
pub proof fn law_panic_is_logged_in_full(
    details: PanicDetails,
    log: String,
    thread: &str,
    location: String,
    message: &str,
)
    requires
        call_ensures(PanicDetails::log_message, (&details,), log),
        call_ensures(PanicDetails::thread_name, (&details,), thread),
        call_ensures(PanicDetails::location_string, (&details,), location),
        call_ensures(PanicDetails::message, (&details,), message),
    ensures
        log@ == "Panic occured:\n             thread: "@ + thread@
            + "\n             location: "@ + location@ + "\n             message: "@ + message@,
{
}

/// The panic of a report is the message of the panic, the same that is logged, in red.
pub proof fn law_reported_message_is_the_logged_one(
    details: PanicDetails,
    panic: Panic,
    message: &str,
)
    requires
        call_ensures(PanicDetails::panic, (&details,), panic),
        call_ensures(PanicDetails::message, (&details,), message),
    ensures
        panic.0@ == "\u{1b}[0;31m"@ + message@ + "\u{1b}[0;0m"@,
{
}

/// The help of a report and the text of a panic with a section behind it.
pub proof fn law_panic_shows_its_message_and_help(
    panic: Panic,
    section: &str,
    text: String,
    help: String,
)
    requires
        call_ensures(Panic::show_with, (&panic, section), text),
        call_ensures(Panic::show_help, (&panic,), help),
    ensures
        text@ == panic.0@ + section@,
        help@ == PANIC_HELP@,
{
}

/// Where the variable is unset, empty or zero, nothing is said of a backtrace. Where it is
/// anything else, a backtrace that was captured is, all of it, behind a heading.
pub proof fn law_backtrace_is_shown_on_demand(
    panic: Panic,
    rust_backtrace: Option<String>,
    section: String,
)
    requires
        call_ensures(Panic::show_backtrace, (&panic, &rust_backtrace), section),
    ensures
        rust_backtrace is None ==> section@ == Seq::<char>::empty(),
        rust_backtrace is Some && (rust_backtrace->0@ == Seq::<char>::empty()
            || rust_backtrace->0@ == "0"@) ==> section@ == Seq::<char>::empty(),
        rust_backtrace is Some && rust_backtrace->0@ != Seq::<char>::empty()
            && rust_backtrace->0@ != "0"@ ==> exists|trace: Seq<char>| #[trigger]
            is_backtrace(trace) && section@ == "\n\nPanic backtrace:\n"@ + trace,
{
    if rust_backtrace is Some && rust_backtrace->0@.len() == 0 {
        assert(rust_backtrace->0@ =~= Seq::<char>::empty());
    }
}

/// The section of a backtrace is a heading and all of the backtrace.
pub proof fn law_backtrace_section_holds_the_trace(trace: &str, section: String)
    requires
        call_ensures(backtrace_section, (trace,), section),
    ensures
        section@ == "\n\nPanic backtrace:\n"@ + trace@,
{
}

/// Whether texts, the outermost first, tell of a panic: of the thread that panicked, of the call
/// stack where there is one, of the location where it is known, and of the message in red, with
/// what is said of the backtrace behind it. They tell of nothing else.
pub open spec fn tell(
    texts: Seq<Seq<char>>,
    thread: Seq<char>,
    stack: Option<Seq<char>>,
    location: Option<Seq<char>>,
    message: Seq<char>,
    section: Seq<char>,
) -> bool {
    let of_stack: int = if stack is Some { 1 } else { 0 };
    let of_location: int = if location is Some { 1 } else { 0 };
    &&& texts.len() == 2 + of_stack + of_location
    &&& texts[0] == "Thread '\u{1b}[0;31m"@ + thread + "\u{1b}[0;0m' panicked."@
    &&& stack is Some ==> texts[1] == stack->0
    &&& location is Some ==> texts[1 + of_stack] == location->0
    &&& texts.last() == "\u{1b}[0;31m"@ + message + "\u{1b}[0;0m"@ + section
}

/// How the location of a panic shows, where it is known.
pub open spec fn shown_location(details: PanicDetails, location: String) -> Option<Seq<char>> {
    if details.location is Some {
        Some(location@)
    } else {
        None
    }
}

/// A report tells of the thread, the call stack, the location and the message of a panic, and of
/// its backtrace, and holds the help text.
pub proof fn law_report_tells_of_the_panic(
    details: PanicDetails,
    section: &str,
    stack: Option<String>,
    report: String,
    thread: &str,
    location: String,
    message: &str,
)
    requires
        call_ensures(PanicDetails::report, (&details, section, stack), report),
        call_ensures(PanicDetails::thread_name, (&details,), thread),
        call_ensures(PanicDetails::location_string, (&details,), location),
        call_ensures(PanicDetails::message, (&details,), message),
    ensures
        exists|texts: Seq<Seq<char>>|
            report@ == #[trigger] rendered(texts, PANIC_HELP@) && tell(
                texts,
                thread@,
                if stack is Some {
                    Some(stack->0@)
                } else {
                    None
                },
                shown_location(details, location),
                message@,
                section@,
            ),
{
    let texts = details.report_texts(section@, stack_view(stack));
    assert(report@ == rendered(texts, PANIC_HELP@));
}

/// What is done about a panic: it is logged, and its report is put on a cleared screen before the
/// program ends with status one where it is of the main thread, or is made an instruction, all of
/// it, where it is of another.
pub proof fn law_reaction_is_up_to_the_thread<T: ErrorInstruction>(
    details: PanicDetails,
    section: &str,
    stack: Option<String>,
    reaction: PanicReaction<T>,
    log: String,
    report: String,
    thread: &str,
)
    requires
        call_ensures(PanicDetails::reaction::<T>, (&details, section, stack), reaction),
        call_ensures(PanicDetails::log_message, (&details,), log),
        call_ensures(PanicDetails::report, (&details, section, stack), report),
        call_ensures(PanicDetails::thread_name, (&details,), thread),
    ensures
        reaction.log@ == log@,
        thread@ == "main"@ ==> reaction.action is Exit && reaction.action->status == 1
            && reaction.action->screen@ == "\u{1b}[2J"@ + report@,
        thread@ != "main"@ ==> reaction.action is Send && exists|err: String|
            err@ == report@ && #[trigger] call_ensures(T::error, (err,), reaction.action->Send_0),
{
    if thread@ != "main"@ {
        assert(carries(reaction.action->Send_0, report@));
    }
}

/// What follows a panic is logged in full, and tells of the panic in full: on the screen where it
/// is of the main thread, and in the instruction that is sent where it is of another.
pub proof fn law_reaction_tells_of_the_panic<T: ErrorInstruction>(
    reaction: PanicReaction<T>,
    details: PanicDetails,
    section: Seq<char>,
    stack: Option<Seq<char>>,
    log: String,
    thread: &str,
    location: String,
    message: &str,
)
    requires
        reaction.follows(details, section, stack),
        call_ensures(PanicDetails::log_message, (&details,), log),
        call_ensures(PanicDetails::thread_name, (&details,), thread),
        call_ensures(PanicDetails::location_string, (&details,), location),
        call_ensures(PanicDetails::message, (&details,), message),
    ensures
        reaction.log@ == log@,
        exists|texts: Seq<Seq<char>>|
            {
                &&& tell(
                    texts,
                    thread@,
                    stack,
                    shown_location(details, location),
                    message@,
                    section,
                )
                &&& thread@ == "main"@ ==> reaction.action is Exit && reaction.action->status == 1
                    && reaction.action->screen@ == "\u{1b}[2J"@ + #[trigger] rendered(
                    texts,
                    PANIC_HELP@,
                )
                &&& thread@ != "main"@ ==> reaction.action is Send && exists|err: String|
                    err@ == rendered(texts, PANIC_HELP@) && #[trigger] call_ensures(
                        T::error,
                        (err,),
                        reaction.action->Send_0,
                    )
            },
{
    let texts = details.report_texts(section, stack);
    let report = rendered(texts, PANIC_HELP@);
    assert(details.report_text(section, stack) == report);
    if thread@ != "main"@ {
        assert(carries(reaction.action->Send_0, report));
    }
}

/// The panic handler shows the call stack, as it shows, where that holds a call in any slot, and a
/// backtrace that was captured where the variable asks for one; and what it does follows from the
/// panic and these two.
pub proof fn law_panic_handler_shows_stack_and_backtrace<T: ErrorInstruction>(
    details: PanicDetails,
    err_ctx: ErrorContext,
    rust_backtrace: Option<String>,
    reaction: PanicReaction<T>,
)
    requires
        call_ensures(handle_panic::<T>, (&details, &err_ctx, &rust_backtrace), reaction),
    ensures
        exists|section: Seq<char>, stack: Option<Seq<char>>|
            {
                &&& #[trigger] reaction.follows(details, section, stack)
                &&& stack is Some <==> exists|i: int|
                    0 <= i < err_ctx.calls@.len() && !((#[trigger] err_ctx.calls@[i]) is Empty)
                &&& stack is Some ==> err_ctx.shows_as(stack->0)
                &&& rust_backtrace is None || rust_backtrace->0@ == Seq::<char>::empty()
                    || rust_backtrace->0@ == "0"@ ==> section == Seq::<char>::empty()
                &&& rust_backtrace is Some && rust_backtrace->0@ != Seq::<char>::empty()
                    && rust_backtrace->0@ != "0"@ ==> exists|trace: Seq<char>| #[trigger]
                    is_backtrace(trace) && section == "\n\nPanic backtrace:\n"@ + trace
            },
{
    let (section, stack) = choose|section: Seq<char>, stack: Option<Seq<char>>|
        {
            &&& is_backtrace_section(rust_backtrace, section)
            &&& stack is None <==> err_ctx.calls@ == blank()
            &&& stack is Some ==> err_ctx.shows_as(stack->0)
            &&& #[trigger] reaction.follows(details, section, stack)
        };
    if rust_backtrace is Some && rust_backtrace->0@.len() == 0 {
        assert(rust_backtrace->0@ =~= Seq::<char>::empty());
    }
    if err_ctx.calls@ == blank() {
        assert forall|i: int| 0 <= i < err_ctx.calls@.len() implies (
        #[trigger] err_ctx.calls@[i]) is Empty by {
            assert(blank()[i] is Empty);
        }
    } else if forall|i: int|
        0 <= i < err_ctx.calls@.len() ==> (#[trigger] err_ctx.calls@[i]) is Empty {
        assert(err_ctx.calls@ =~= blank());
    }
}

} // verus!
