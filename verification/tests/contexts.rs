use zellij_utils::errors::contexts::{
    show_pair, ClientContext, ContextType, PluginContext, PtyContext, PtyWriteContext,
    ScreenContext, ServerContext,
};

#[test]
fn call_shows_in_colour() {
    colored::control::set_override(true);
    assert_eq!(
        ContextType::Screen(ScreenContext::Render).to_string(),
        "\u{1b}[35mscreen_thread:\u{1b}[0m \u{1b}[32mRender\u{1b}[0m"
    );
    assert_eq!(
        ContextType::AsyncTask.to_string(),
        "\u{1b}[35mstream_terminal_bytes:\u{1b}[0m \u{1b}[32mAsyncTask\u{1b}[0m"
    );
}

#[test]
fn call_shows_without_colour() {
    colored::control::set_override(false);
    assert_eq!(
        ContextType::Screen(ScreenContext::HandlePtyBytes).to_string(),
        "screen_thread: HandlePtyBytes"
    );
    assert_eq!(
        ContextType::Pty(PtyContext::SpawnTerminal).to_string(),
        "pty_thread: SpawnTerminal"
    );
    assert_eq!(
        ContextType::Plugin(PluginContext::Load).to_string(),
        "plugin_thread: Load"
    );
    assert_eq!(
        ContextType::Client(ClientContext::OwnClientId).to_string(),
        "main_thread: OwnClientId"
    );
    assert_eq!(
        ContextType::IPCServer(ServerContext::NewClient).to_string(),
        "ipc_server: NewClient"
    );
    assert_eq!(
        ContextType::StdinHandler.to_string(),
        "stdin_handler_thread: AcceptInput"
    );
    assert_eq!(
        ContextType::AsyncTask.to_string(),
        "stream_terminal_bytes: AsyncTask"
    );
    assert_eq!(
        ContextType::PtyWrite(PtyWriteContext::Write).to_string(),
        "pty_writer_thread: Write"
    );
}

#[test]
fn no_call_shows_as_nothing() {
    colored::control::set_override(true);
    assert_eq!(ContextType::Empty.to_string(), "");
    assert_eq!(ContextType::Empty.parts(), None);
}

#[test]
fn names_are_those_of_the_variants() {
    let screens = vec![
        ScreenContext::HandlePtyBytes,
        ScreenContext::MoveFocusLeftOrPreviousTab,
        ScreenContext::Copy,
        ScreenContext::SearchToggleWrap,
    ];
    for call in screens {
        assert_eq!(call.name(), format!("{:?}", call));
    }
    for call in vec![PtyContext::SpawnTerminal, PtyContext::Exit] {
        assert_eq!(call.name(), format!("{:?}", call));
    }
    for call in vec![PluginContext::Load, PluginContext::RemoveClient] {
        assert_eq!(call.name(), format!("{:?}", call));
    }
    for call in vec![ClientContext::Exit, ClientContext::OwnClientId] {
        assert_eq!(call.name(), format!("{:?}", call));
    }
    for call in vec![ServerContext::NewClient, ServerContext::ActiveClients] {
        assert_eq!(call.name(), format!("{:?}", call));
    }
    for call in vec![PtyWriteContext::Write, PtyWriteContext::Exit] {
        assert_eq!(call.name(), format!("{:?}", call));
    }
}

#[test]
fn parts_of_a_line_are_joined_by_a_space() {
    assert_eq!(show_pair("a:", "b"), "a: b");
}

fn calls_of_like_names() -> Vec<ContextType> {
    vec![
        ContextType::Screen(ScreenContext::Render),
        ContextType::Plugin(PluginContext::Render),
        ContextType::Client(ClientContext::Render),
        ContextType::IPCServer(ServerContext::Render),
        ContextType::Screen(ScreenContext::Exit),
        ContextType::Pty(PtyContext::Exit),
        ContextType::PtyWrite(PtyWriteContext::Exit),
        ContextType::Screen(ScreenContext::ScrollUp),
        ContextType::Screen(ScreenContext::ScrollUpAt),
        ContextType::StdinHandler,
        ContextType::AsyncTask,
        ContextType::Empty,
    ]
}

#[test]
fn different_calls_show_differently() {
    for colours in vec![true, false] {
        colored::control::set_override(colours);
        let calls = calls_of_like_names();
        for one in calls.iter() {
            for other in calls.iter() {
                assert_eq!(one.to_string() == other.to_string(), one == other);
                assert_eq!(one.parts() == other.parts(), one == other);
            }
        }
    }
}
