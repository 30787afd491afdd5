use zellij_utils::errors::call_stack::{
    get_current_ctx, show_stack, ErrorContext, OpenCalls, MAX_THREAD_CALL_STACK,
};
use zellij_utils::errors::contexts::{ContextType, PtyContext, ScreenContext};

fn no_task() -> OpenCalls {
    OpenCalls {
        task: None,
        thread: ErrorContext::new(),
    }
}

#[test]
fn new_context_is_empty() {
    assert!(ErrorContext::new().is_empty());
    assert!(ErrorContext::default().is_empty());
    assert_eq!(
        ErrorContext::new().calls,
        [ContextType::Empty; MAX_THREAD_CALL_STACK]
    );
}

#[test]
fn added_calls_are_kept_in_order() {
    let mut open_calls = no_task();
    let mut ctx = ErrorContext::new();
    ctx.add_call(ContextType::StdinHandler, &mut open_calls);
    ctx.add_call(ContextType::Screen(ScreenContext::Render), &mut open_calls);
    assert!(!ctx.is_empty());
    assert_eq!(ctx.calls[0], ContextType::StdinHandler);
    assert_eq!(ctx.calls[1], ContextType::Screen(ScreenContext::Render));
    assert_eq!(ctx.calls[2], ContextType::Empty);
}

#[test]
fn calls_beyond_the_maximum_are_dropped() {
    let mut open_calls = no_task();
    let mut ctx = ErrorContext::new();
    for _ in 0..MAX_THREAD_CALL_STACK {
        ctx.add_call(ContextType::AsyncTask, &mut open_calls);
    }
    ctx.add_call(ContextType::StdinHandler, &mut open_calls);
    assert_eq!(
        ctx.calls,
        [ContextType::AsyncTask; MAX_THREAD_CALL_STACK]
    );
}

#[test]
fn adding_no_call_adds_nothing() {
    let mut open_calls = no_task();
    let mut ctx = ErrorContext::new();
    ctx.add_call(ContextType::Empty, &mut open_calls);
    assert!(ctx.is_empty());
    ctx.add_call(ContextType::AsyncTask, &mut open_calls);
    assert_eq!(ctx.calls[0], ContextType::AsyncTask);
}

#[test]
fn a_gap_is_filled_first() {
    let mut open_calls = no_task();
    let mut ctx = ErrorContext::new();
    ctx.calls[1] = ContextType::AsyncTask;
    assert!(!ctx.is_empty());
    ctx.add_call(ContextType::StdinHandler, &mut open_calls);
    assert_eq!(ctx.calls[0], ContextType::StdinHandler);
    assert_eq!(ctx.calls[1], ContextType::AsyncTask);
    assert_eq!(ctx.calls[2], ContextType::Empty);
}

#[test]
fn added_call_is_current_on_the_thread() {
    let mut open_calls = no_task();
    let mut ctx = ErrorContext::new();
    ctx.add_call(ContextType::AsyncTask, &mut open_calls);
    assert_eq!(get_current_ctx(&open_calls).calls, ctx.calls);
    assert_eq!(open_calls.thread.calls, ctx.calls);
    assert!(open_calls.task.is_none());
}

#[test]
fn added_call_is_current_in_the_task() {
    let mut open_calls = OpenCalls {
        task: Some(ErrorContext::new()),
        thread: ErrorContext::new(),
    };
    let mut ctx = ErrorContext::new();
    ctx.add_call(ContextType::AsyncTask, &mut open_calls);
    assert_eq!(get_current_ctx(&open_calls).calls, ctx.calls);
    assert!(open_calls.thread.is_empty());
}

#[test]
fn update_makes_a_context_current() {
    let mut open_calls = no_task();
    let mut ctx = ErrorContext::new();
    ctx.calls[0] = ContextType::StdinHandler;
    ctx.update_thread_ctx(&mut open_calls);
    assert_eq!(
        get_current_ctx(&open_calls).calls[0],
        ContextType::StdinHandler
    );
}

#[test]
fn stack_shows_its_calls() {
    colored::control::set_override(false);
    let mut open_calls = no_task();
    let mut ctx = ErrorContext::new();
    ctx.add_call(ContextType::Screen(ScreenContext::NewTab), &mut open_calls);
    ctx.add_call(ContextType::Pty(PtyContext::NewTab), &mut open_calls);
    assert_eq!(
        ctx.to_string(),
        "Originating Thread(s)\n\t\u{1b}[0;0m1. screen_thread: NewTab\n\t\u{1b}[0;0m2. pty_thread: NewTab\n"
    );
}

#[test]
fn stack_shows_calls_before_the_first_gap_only() {
    colored::control::set_override(false);
    let mut ctx = ErrorContext::new();
    ctx.calls[0] = ContextType::StdinHandler;
    ctx.calls[2] = ContextType::AsyncTask;
    assert_eq!(
        ctx.to_string(),
        "Originating Thread(s)\n\t\u{1b}[0;0m1. stdin_handler_thread: AcceptInput\n"
    );
    assert_eq!(ErrorContext::new().to_string(), "Originating Thread(s)\n");
}

#[test]
fn lines_of_a_stack_are_numbered() {
    let mut shown = Vec::new();
    for _ in 0..11 {
        shown.push("x".to_string());
    }
    let text = show_stack(&shown);
    assert!(text.starts_with("Originating Thread(s)\n\t\u{1b}[0;0m1. x\n"));
    assert!(text.ends_with("\t\u{1b}[0;0m10. x\n\t\u{1b}[0;0m11. x\n"));
}

#[test]
fn empty_calls_take_no_slot() {
    let mut open_calls = no_task();
    let mut ctx = ErrorContext::new();
    for _ in 0..MAX_THREAD_CALL_STACK {
        ctx.add_call(ContextType::Empty, &mut open_calls);
        ctx.add_call(ContextType::AsyncTask, &mut open_calls);
        ctx.add_call(ContextType::Empty, &mut open_calls);
    }
    ctx.add_call(ContextType::StdinHandler, &mut open_calls);
    assert_eq!(
        ctx.calls,
        [ContextType::AsyncTask; MAX_THREAD_CALL_STACK]
    );
}
