use std::cell::RefCell;
use std::io;
use zellij_utils::errors::call_stack::ErrorContext;
use zellij_utils::errors::contexts::ContextType;
use zellij_utils::errors::logging::{
    error_message, fatal_context, log_message, log_once, FatalError, LoggableError, SendFailure,
    ToAnyhow,
};

#[test]
fn error_is_logged_with_its_causes() {
    let logged = RefCell::new(Vec::new());
    let result: anyhow::Result<u8> = Err(anyhow::Error::msg("root")
        .context("middle")
        .context("top"));
    let same = result.print_error(|message| logged.borrow_mut().push(message.to_string()));
    assert_eq!(
        logged.into_inner(),
        vec!["ERROR: top\nbecause: middle\nbecause: root".to_string()]
    );
    assert_eq!(same.unwrap_err().to_string(), "top");
}

#[test]
fn single_error_is_logged_alone() {
    let logged = RefCell::new(Vec::new());
    let result: anyhow::Result<&str> = Err(anyhow::Error::msg("Test error"));
    let same = result.print_error(|message| logged.borrow_mut().push(message.to_string()));
    assert_eq!(logged.into_inner(), vec!["ERROR: Test error".to_string()]);
    assert!(same.is_err());
}

#[test]
fn value_is_not_logged() {
    let logged = RefCell::new(Vec::new());
    let result: anyhow::Result<u8> = Ok(7);
    let same = result.print_error(|message| logged.borrow_mut().push(message.to_string()));
    assert!(logged.into_inner().is_empty());
    assert_eq!(same.unwrap(), 7);
}

#[test]
fn sources_of_other_errors_are_causes() {
    let source = io::Error::new(io::ErrorKind::Other, "disk on fire");
    let result: anyhow::Result<u8> = Err(anyhow::Error::new(source).context("cannot read"));
    assert_eq!(
        log_message(&result),
        Some("ERROR: cannot read\nbecause: disk on fire".to_string())
    );
    let fine: anyhow::Result<u8> = Ok(1);
    assert_eq!(log_message(&fine), None);
}

#[test]
fn message_is_built_of_texts() {
    assert_eq!(
        error_message(&vec!["a".to_string(), "b".to_string()]),
        "ERROR: a\nbecause: b"
    );
    assert_eq!(error_message(&vec!["a".to_string()]), "ERROR: a");
}

#[test]
fn non_fatal_error_is_logged() {
    let logged = RefCell::new(Vec::new());
    let result: anyhow::Result<u8> = Err(anyhow::Error::msg("root"));
    result.non_fatal(|message: &str| logged.borrow_mut().push(message.to_string()));
    assert_eq!(
        logged.into_inner(),
        vec!["ERROR: a non-fatal error occured\nbecause: root".to_string()]
    );
}

#[test]
fn non_fatal_value_is_dropped() {
    let logged = RefCell::new(Vec::new());
    let result: anyhow::Result<u8> = Ok(7);
    result.non_fatal(|message: &str| logged.borrow_mut().push(message.to_string()));
    assert!(logged.into_inner().is_empty());
}

#[test]
fn fatal_returns_the_value() {
    let result: anyhow::Result<u8> = Ok(7);
    assert_eq!(result.fatal(), 7);
}

#[test]
fn fatal_error_is_marked() {
    let result: anyhow::Result<u8> = Err(anyhow::Error::msg("root"));
    let marked = fatal_context(result);
    assert_eq!(
        log_message(&marked),
        Some("ERROR: a fatal error occured\nbecause: root".to_string())
    );
    assert_eq!(fatal_context(Ok::<u8, anyhow::Error>(3)).unwrap(), 3);
}

#[test]
fn send_failure_carries_its_call_stack() {
    colored::control::set_override(false);
    let mut context = ErrorContext::new();
    context.calls[0] = ContextType::StdinHandler;
    let result: Result<u8, SendFailure> = Err(SendFailure {
        message: "Render".to_string(),
        context,
    });
    let converted = result.to_anyhow();
    assert_eq!(
        log_message(&converted),
        Some(
            "ERROR: Originating Thread(s)\n\t\u{1b}[0;0m1. stdin_handler_thread: AcceptInput\n\nbecause: failed to send message to channel: Render"
                .to_string()
        )
    );
}

#[test]
fn sent_message_gives_its_value() {
    let result: Result<u8, SendFailure> = Ok(5);
    assert_eq!(result.to_anyhow().unwrap(), 5);
}

#[test]
fn closure_that_can_be_called_once_will_do() {
    let name = "log: ".to_string();
    let logged = RefCell::new(Vec::new());
    let result: anyhow::Result<u8> = Err(anyhow::Error::msg("root"));
    log_once(&result, |message: &str| {
        let mut entry = name;
        entry.push_str(message);
        logged.borrow_mut().push(entry);
    });
    assert_eq!(logged.into_inner(), vec!["log: ERROR: root".to_string()]);
    let fine: anyhow::Result<u8> = Ok(1);
    log_once(&fine, |_: &str| panic!("nothing to log"));
}
