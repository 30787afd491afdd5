use zellij_utils::errors::call_stack::ErrorContext;
use zellij_utils::errors::contexts::ContextType;
use zellij_utils::errors::panics::{
    backtrace_section, handle_panic, ErrorInstruction, Panic, PanicAction, PanicDetails,
    PanicLocation, PanicReaction,
};

struct Instruction(String);

impl ErrorInstruction for Instruction {
    fn error(err: String) -> Self {
        Instruction(format!("reported: {}", err))
    }
}

const HELP: &str = "If you are seeing this message, it means that something went wrong.
Please report this error to the github issue.
(https://github.com/zellij-org/zellij/issues)

Also, if you want to see the backtrace, you can set the `RUST_BACKTRACE` environment variable to `1`.
";

fn details(thread: Option<&str>) -> PanicDetails {
    PanicDetails {
        thread: thread.map(|name| name.to_string()),
        literal: Some("oh no".to_string()),
        string: None,
        location: Some(PanicLocation {
            file: "src/main.rs".to_string(),
            line: 17,
            column: 5,
        }),
    }
}

fn render(layers: Vec<&str>) -> String {
    let innermost = layers[layers.len() - 1].to_string();
    let mut report =
        miette::Report::new(miette::MietteDiagnostic::new(innermost).with_help(HELP));
    for text in layers.iter().rev().skip(1) {
        report = report.wrap_err(text.to_string());
    }
    let mut out = String::new();
    miette::GraphicalReportHandler::new_themed(miette::GraphicalTheme::unicode())
        .render_report(&mut out, report.as_ref())
        .unwrap();
    out
}

#[test]
fn help_names_the_issues() {
    assert_eq!(Panic("x".to_string()).show_help(), HELP);
}

#[test]
fn backtrace_is_shown_on_demand() {
    let panic = Panic("x".to_string());
    assert_eq!(panic.show_backtrace(&None), "");
    assert_eq!(panic.show_backtrace(&Some("".to_string())), "");
    assert_eq!(panic.show_backtrace(&Some("0".to_string())), "");
    let full = panic.show_backtrace(&Some("1".to_string()));
    assert!(full.starts_with("\n\nPanic backtrace:\n"));
    assert!(full.len() > "\n\nPanic backtrace:\n".len());
    let odd = panic.show_backtrace(&Some("00".to_string()));
    assert!(odd.starts_with("\n\nPanic backtrace:\n"));
    assert_eq!(backtrace_section("frames"), "\n\nPanic backtrace:\nframes");
    assert_eq!(panic.show_with("y"), "xy");
}

#[test]
fn message_is_what_the_panic_carries() {
    let mut known = details(None);
    assert_eq!(known.message(), "oh no");
    known.string = Some("owned".to_string());
    assert_eq!(known.message(), "oh no");
    known.literal = None;
    assert_eq!(known.message(), "owned");
    known.string = None;
    assert_eq!(known.message(), "An unexpected error occurred!");
}

#[test]
fn location_shows_file_line_and_column() {
    let mut known = details(None);
    assert_eq!(known.location_string(), "At src/main.rs:17:5");
    known.location = None;
    assert_eq!(known.location_string(), "");
}

#[test]
fn log_names_thread_location_and_message() {
    assert_eq!(
        details(Some("pty")).log_message(),
        "Panic occured:\n             thread: pty\n             location: At src/main.rs:17:5\n             message: oh no"
    );
    let unknown = PanicDetails {
        thread: None,
        literal: None,
        string: None,
        location: None,
    };
    assert_eq!(
        unknown.log_message(),
        "Panic occured:\n             thread: unnamed\n             location: \n             message: An unexpected error occurred!"
    );
}

#[test]
fn panic_of_the_main_thread_ends_the_program() {
    let reaction: PanicReaction<Instruction> =
        handle_panic(&details(Some("main")), &ErrorContext::new(), &None);
    assert_eq!(reaction.log, details(Some("main")).log_message());
    match reaction.action {
        PanicAction::Exit { screen, status } => {
            assert_eq!(status, 1);
            let report = render(vec![
                "Thread '\u{1b}[0;31mmain\u{1b}[0;0m' panicked.",
                "At src/main.rs:17:5",
                "\u{1b}[0;31moh no\u{1b}[0;0m",
            ]);
            assert_eq!(screen, format!("\u{1b}[2J{}", report));
        }
        PanicAction::Send(_) => panic!("sent"),
    }
}

#[test]
fn panic_of_another_thread_is_sent() {
    colored::control::set_override(false);
    let mut ctx = ErrorContext::new();
    ctx.calls[0] = ContextType::StdinHandler;
    let mut known = details(None);
    known.location = None;
    let reaction: PanicReaction<Instruction> = handle_panic(&known, &ctx, &None);
    match reaction.action {
        PanicAction::Exit { .. } => panic!("ended"),
        PanicAction::Send(Instruction(text)) => {
            let report = render(vec![
                "Thread '\u{1b}[0;31munnamed\u{1b}[0;0m' panicked.",
                "Originating Thread(s)\n\t\u{1b}[0;0m1. stdin_handler_thread: AcceptInput\n",
                "\u{1b}[0;31moh no\u{1b}[0;0m",
            ]);
            assert_eq!(text, format!("reported: {}", report));
        }
    }
}

#[test]
fn report_with_a_backtrace_holds_it() {
    let reaction: PanicReaction<Instruction> = handle_panic(
        &details(Some("main")),
        &ErrorContext::new(),
        &Some("1".to_string()),
    );
    match reaction.action {
        PanicAction::Exit { screen, .. } => assert!(screen.contains("Panic backtrace:")),
        PanicAction::Send(_) => panic!("sent"),
    }
}

#[test]
fn report_shows_texts_and_help() {
    let mut known = details(Some("pty"));
    known.location = None;
    let report = known.report("", None);
    assert_eq!(
        report,
        "  \u{1b}[31m×\u{1b}[0m Thread '\u{1b}[0;31mpty\u{1b}[0;0m' panicked.\n\u{1b}[31m  ╰─▶ \u{1b}[0m\u{1b}[0;31moh no\u{1b}[0;0m\n\u{1b}[36m  help: \u{1b}[0mIf you are seeing this message, it means that something went wrong.\n        Please report this error to the github issue.\n        (https://github.com/zellij-org/zellij/issues)\n        \n        Also, if you want to see the backtrace, you can set the `RUST_BACKTRACE` environment variable to `1`.\n        \n"
    );
}
