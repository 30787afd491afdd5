//! The kinds of calls that a call stack records.

use crate::outside::{is_green, is_purple, shown_green, shown_purple, Colouring};
use vstd::prelude::*;
use vstd::string::*;

verus! {

/// The kinds of calls that form the call stack of an error context.
///
/// The kinds with a field say which call of that part of the program it was.
#[derive(Debug, Clone, Copy, PartialEq, Eq, Structural)]
pub enum ContextType {
    /// A call to the screen.
    Screen(ScreenContext),
    /// A call to the pseudoterminal thread.
    Pty(PtyContext),
    /// A call to the plugin thread.
    Plugin(PluginContext),
    /// A call to the client.
    Client(ClientContext),
    /// A call to the server.
    IPCServer(ServerContext),
    /// A call of the thread that reads standard input.
    StdinHandler,
    /// A call of an asynchronous task.
    AsyncTask,
    /// A call to the pseudoterminal writer.
    PtyWrite(PtyWriteContext),
    /// No call at all. A call stack that holds nothing else is the empty call stack.
    Empty,
}

impl ContextType {
    /// The thread that a call names, with a colon behind it.
    pub open spec fn label(self) -> Seq<char> {
        match self {
            ContextType::Screen(_) => "screen_thread:"@,
            ContextType::Pty(_) => "pty_thread:"@,
            ContextType::Plugin(_) => "plugin_thread:"@,
            ContextType::Client(_) => "main_thread:"@,
            ContextType::IPCServer(_) => "ipc_server:"@,
            ContextType::StdinHandler => "stdin_handler_thread:"@,
            ContextType::AsyncTask => "stream_terminal_bytes:"@,
            ContextType::PtyWrite(_) => "pty_writer_thread:"@,
            ContextType::Empty => ""@,
        }
    }

    /// The call that was made on that thread.
    pub open spec fn detail(self) -> Seq<char> {
        match self {
            ContextType::Screen(call) => call.text(),
            ContextType::Pty(call) => call.text(),
            ContextType::Plugin(call) => call.text(),
            ContextType::Client(call) => call.text(),
            ContextType::IPCServer(call) => call.text(),
            ContextType::StdinHandler => "AcceptInput"@,
            ContextType::AsyncTask => "AsyncTask"@,
            ContextType::PtyWrite(call) => call.text(),
            ContextType::Empty => ""@,
        }
    }

    /// What shows of the call under the colour settings that the thread and the call meet: the
    /// thread in purple, a space and the call in green, or nothing where there is no call.
    pub open spec fn shown_in(self, left: Colouring, right: Colouring) -> Seq<char> {
        if self is Empty {
            Seq::empty()
        } else {
            shown_pair(left.purple(self.label()), right.green(self.detail()))
        }
    }

    /// Whether `shown` is a way to show the call: what came of showing the thread in purple, a
    /// space and what came of showing the call in green, or nothing where there is no call. Whether
    /// the colours appear is up to the terminal and the environment.
    pub open spec fn shows_as(self, shown: Seq<char>) -> bool {
        if self is Empty {
            shown == Seq::<char>::empty()
        } else {
            exists|left: Seq<char>, right: Seq<char>|
                #![trigger is_purple(self.label(), left), is_green(self.detail(), right)]
                is_purple(self.label(), left) && is_green(self.detail(), right) && shown
                    == shown_pair(left, right)
        }
    }

    /// Returns the thread and the call, or `None` where there is no call.
    pub fn parts(self) -> (parts: Option<(&'static str, &'static str)>)
        ensures
            parts is None <==> self is Empty,
            parts matches Some((label, detail)) ==> label@ == self.label() && detail@
                == self.detail(),
    {
        match self {
            ContextType::Screen(call) => Some(("screen_thread:", call.name())),
            ContextType::Pty(call) => Some(("pty_thread:", call.name())),
            ContextType::Plugin(call) => Some(("plugin_thread:", call.name())),
            ContextType::Client(call) => Some(("main_thread:", call.name())),
            ContextType::IPCServer(call) => Some(("ipc_server:", call.name())),
            ContextType::StdinHandler => Some(("stdin_handler_thread:", "AcceptInput")),
            ContextType::AsyncTask => Some(("stream_terminal_bytes:", "AsyncTask")),
            ContextType::PtyWrite(call) => Some(("pty_writer_thread:", call.name())),
            ContextType::Empty => None,
        }
    }

    /// Shows the call as one line of a call stack.
    pub fn to_string(&self) -> (shown: String)
        ensures
            self.shows_as(shown@),
    {
        match self.parts() {
            Some((label, detail)) => {
                proof {
                    self.lemma_parts_have_no_escape();
                }
                let left = shown_purple(label);
                let right = shown_green(detail);
                show_pair(&left, &right)
            },
            None => String::new(),
        }
    }

    /// Neither part of a call holds an escape character.
    pub proof fn lemma_parts_have_no_escape(self)
        ensures
            !self.label().contains('\u{1b}'),
            !self.detail().contains('\u{1b}'),
    {
        reveal_strlit("screen_thread:");
        reveal_strlit("pty_thread:");
        reveal_strlit("plugin_thread:");
        reveal_strlit("main_thread:");
        reveal_strlit("ipc_server:");
        reveal_strlit("stdin_handler_thread:");
        reveal_strlit("stream_terminal_bytes:");
        reveal_strlit("pty_writer_thread:");
        reveal_strlit("AcceptInput");
        reveal_strlit("AsyncTask");
        reveal_strlit("");
        match self {
            ContextType::Screen(call) => call.lemma_text(),
            ContextType::Pty(call) => call.lemma_text(),
            ContextType::Plugin(call) => call.lemma_text(),
            ContextType::Client(call) => call.lemma_text(),
            ContextType::IPCServer(call) => call.lemma_text(),
            ContextType::PtyWrite(call) => call.lemma_text(),
            _ => {},
        }
    }
}

/// The thread and the call of one line, with a space between them.
pub open spec fn shown_pair(left: Seq<char>, right: Seq<char>) -> Seq<char> {
    left + " "@ + right
}

/// Joins the thread and the call of one line, as the terminal shows them.
pub fn show_pair(left: &str, right: &str) -> (shown: String)
    ensures
        shown@ == shown_pair(left@, right@),
{
    let mut shown = left.to_owned();
    shown.append(" ");
    shown.append(right);
    shown
}

/// A letter of a name, or a space behind its end.
spec fn letter(name: Seq<char>, i: int) -> char {
    if i < name.len() {
        name[i]
    } else {
        ' '
    }
}

/// The length of a name and three of its letters, which tell the names of calls apart.
spec fn letters_of(name: Seq<char>) -> (nat, char, char, char) {
    (name.len(), letter(name, 2), letter(name, 6), letter(name, 9))
}

/// Calls to the screen, one for each of its instructions.
#[derive(Debug, Clone, Copy, PartialEq, Eq, Structural)]
pub enum ScreenContext {
    HandlePtyBytes,
    Render,
    NewPane,
    OpenInPlaceEditor,
    ToggleFloatingPanes,
    ShowFloatingPanes,
    HideFloatingPanes,
    TogglePaneEmbedOrFloating,
    HorizontalSplit,
    VerticalSplit,
    WriteCharacter,
    ResizeLeft,
    ResizeRight,
    ResizeDown,
    ResizeUp,
    ResizeIncrease,
    ResizeDecrease,
    SwitchFocus,
    FocusNextPane,
    FocusPreviousPane,
    FocusPaneAt,
    MoveFocusLeft,
    MoveFocusLeftOrPreviousTab,
    MoveFocusDown,
    MoveFocusUp,
    MoveFocusRight,
    MoveFocusRightOrNextTab,
    MovePane,
    MovePaneDown,
    MovePaneUp,
    MovePaneRight,
    MovePaneLeft,
    Exit,
    DumpScreen,
    EditScrollback,
    ScrollUp,
    ScrollUpAt,
    ScrollDown,
    ScrollDownAt,
    ScrollToBottom,
    PageScrollUp,
    PageScrollDown,
    HalfPageScrollUp,
    HalfPageScrollDown,
    ClearScroll,
    CloseFocusedPane,
    ToggleActiveSyncTab,
    ToggleActiveTerminalFullscreen,
    TogglePaneFrames,
    SetSelectable,
    SetInvisibleBorders,
    SetFixedHeight,
    SetFixedWidth,
    ClosePane,
    UpdatePaneName,
    UndoRenamePane,
    NewTab,
    SwitchTabNext,
    SwitchTabPrev,
    CloseTab,
    GoToTab,
    UpdateTabName,
    UndoRenameTab,
    TerminalResize,
    TerminalPixelDimensions,
    TerminalBackgroundColor,
    TerminalForegroundColor,
    TerminalColorRegisters,
    ChangeMode,
    ChangeModeForAllClients,
    LeftClick,
    RightClick,
    MiddleClick,
    LeftMouseRelease,
    RightMouseRelease,
    MiddleMouseRelease,
    MouseHoldLeft,
    MouseHoldRight,
    MouseHoldMiddle,
    Copy,
    ToggleTab,
    AddClient,
    RemoveClient,
    AddOverlay,
    RemoveOverlay,
    ConfirmPrompt,
    DenyPrompt,
    UpdateSearch,
    SearchDown,
    SearchUp,
    SearchToggleCaseSensitivity,
    SearchToggleWholeWord,
    SearchToggleWrap,
}

impl ScreenContext {
    /// The name of the call.
    pub open spec fn text(self) -> Seq<char> {
        match self {
            ScreenContext::HandlePtyBytes => "HandlePtyBytes"@,
            ScreenContext::Render => "Render"@,
            ScreenContext::NewPane => "NewPane"@,
            ScreenContext::OpenInPlaceEditor => "OpenInPlaceEditor"@,
            ScreenContext::ToggleFloatingPanes => "ToggleFloatingPanes"@,
            ScreenContext::ShowFloatingPanes => "ShowFloatingPanes"@,
            ScreenContext::HideFloatingPanes => "HideFloatingPanes"@,
            ScreenContext::TogglePaneEmbedOrFloating => "TogglePaneEmbedOrFloating"@,
            ScreenContext::HorizontalSplit => "HorizontalSplit"@,
            ScreenContext::VerticalSplit => "VerticalSplit"@,
            ScreenContext::WriteCharacter => "WriteCharacter"@,
            ScreenContext::ResizeLeft => "ResizeLeft"@,
            ScreenContext::ResizeRight => "ResizeRight"@,
            ScreenContext::ResizeDown => "ResizeDown"@,
            ScreenContext::ResizeUp => "ResizeUp"@,
            ScreenContext::ResizeIncrease => "ResizeIncrease"@,
            ScreenContext::ResizeDecrease => "ResizeDecrease"@,
            ScreenContext::SwitchFocus => "SwitchFocus"@,
            ScreenContext::FocusNextPane => "FocusNextPane"@,
            ScreenContext::FocusPreviousPane => "FocusPreviousPane"@,
            ScreenContext::FocusPaneAt => "FocusPaneAt"@,
            ScreenContext::MoveFocusLeft => "MoveFocusLeft"@,
            ScreenContext::MoveFocusLeftOrPreviousTab => "MoveFocusLeftOrPreviousTab"@,
            ScreenContext::MoveFocusDown => "MoveFocusDown"@,
            ScreenContext::MoveFocusUp => "MoveFocusUp"@,
            ScreenContext::MoveFocusRight => "MoveFocusRight"@,
            ScreenContext::MoveFocusRightOrNextTab => "MoveFocusRightOrNextTab"@,
            ScreenContext::MovePane => "MovePane"@,
            ScreenContext::MovePaneDown => "MovePaneDown"@,
            ScreenContext::MovePaneUp => "MovePaneUp"@,
            ScreenContext::MovePaneRight => "MovePaneRight"@,
            ScreenContext::MovePaneLeft => "MovePaneLeft"@,
            ScreenContext::Exit => "Exit"@,
            ScreenContext::DumpScreen => "DumpScreen"@,
            ScreenContext::EditScrollback => "EditScrollback"@,
            ScreenContext::ScrollUp => "ScrollUp"@,
            ScreenContext::ScrollUpAt => "ScrollUpAt"@,
            ScreenContext::ScrollDown => "ScrollDown"@,
            ScreenContext::ScrollDownAt => "ScrollDownAt"@,
            ScreenContext::ScrollToBottom => "ScrollToBottom"@,
            ScreenContext::PageScrollUp => "PageScrollUp"@,
            ScreenContext::PageScrollDown => "PageScrollDown"@,
            ScreenContext::HalfPageScrollUp => "HalfPageScrollUp"@,
            ScreenContext::HalfPageScrollDown => "HalfPageScrollDown"@,
            ScreenContext::ClearScroll => "ClearScroll"@,
            ScreenContext::CloseFocusedPane => "CloseFocusedPane"@,
            ScreenContext::ToggleActiveSyncTab => "ToggleActiveSyncTab"@,
            ScreenContext::ToggleActiveTerminalFullscreen => "ToggleActiveTerminalFullscreen"@,
            ScreenContext::TogglePaneFrames => "TogglePaneFrames"@,
            ScreenContext::SetSelectable => "SetSelectable"@,
            ScreenContext::SetInvisibleBorders => "SetInvisibleBorders"@,
            ScreenContext::SetFixedHeight => "SetFixedHeight"@,
            ScreenContext::SetFixedWidth => "SetFixedWidth"@,
            ScreenContext::ClosePane => "ClosePane"@,
            ScreenContext::UpdatePaneName => "UpdatePaneName"@,
            ScreenContext::UndoRenamePane => "UndoRenamePane"@,
            ScreenContext::NewTab => "NewTab"@,
            ScreenContext::SwitchTabNext => "SwitchTabNext"@,
            ScreenContext::SwitchTabPrev => "SwitchTabPrev"@,
            ScreenContext::CloseTab => "CloseTab"@,
            ScreenContext::GoToTab => "GoToTab"@,
            ScreenContext::UpdateTabName => "UpdateTabName"@,
            ScreenContext::UndoRenameTab => "UndoRenameTab"@,
            ScreenContext::TerminalResize => "TerminalResize"@,
            ScreenContext::TerminalPixelDimensions => "TerminalPixelDimensions"@,
            ScreenContext::TerminalBackgroundColor => "TerminalBackgroundColor"@,
            ScreenContext::TerminalForegroundColor => "TerminalForegroundColor"@,
            ScreenContext::TerminalColorRegisters => "TerminalColorRegisters"@,
            ScreenContext::ChangeMode => "ChangeMode"@,
            ScreenContext::ChangeModeForAllClients => "ChangeModeForAllClients"@,
            ScreenContext::LeftClick => "LeftClick"@,
            ScreenContext::RightClick => "RightClick"@,
            ScreenContext::MiddleClick => "MiddleClick"@,
            ScreenContext::LeftMouseRelease => "LeftMouseRelease"@,
            ScreenContext::RightMouseRelease => "RightMouseRelease"@,
            ScreenContext::MiddleMouseRelease => "MiddleMouseRelease"@,
            ScreenContext::MouseHoldLeft => "MouseHoldLeft"@,
            ScreenContext::MouseHoldRight => "MouseHoldRight"@,
            ScreenContext::MouseHoldMiddle => "MouseHoldMiddle"@,
            ScreenContext::Copy => "Copy"@,
            ScreenContext::ToggleTab => "ToggleTab"@,
            ScreenContext::AddClient => "AddClient"@,
            ScreenContext::RemoveClient => "RemoveClient"@,
            ScreenContext::AddOverlay => "AddOverlay"@,
            ScreenContext::RemoveOverlay => "RemoveOverlay"@,
            ScreenContext::ConfirmPrompt => "ConfirmPrompt"@,
            ScreenContext::DenyPrompt => "DenyPrompt"@,
            ScreenContext::UpdateSearch => "UpdateSearch"@,
            ScreenContext::SearchDown => "SearchDown"@,
            ScreenContext::SearchUp => "SearchUp"@,
            ScreenContext::SearchToggleCaseSensitivity => "SearchToggleCaseSensitivity"@,
            ScreenContext::SearchToggleWholeWord => "SearchToggleWholeWord"@,
            ScreenContext::SearchToggleWrap => "SearchToggleWrap"@,
        }
    }

    /// Returns the name of the call.
    pub fn name(self) -> (name: &'static str)
        ensures
            name@ == self.text(),
    {
        match self {
            ScreenContext::HandlePtyBytes => "HandlePtyBytes",
            ScreenContext::Render => "Render",
            ScreenContext::NewPane => "NewPane",
            ScreenContext::OpenInPlaceEditor => "OpenInPlaceEditor",
            ScreenContext::ToggleFloatingPanes => "ToggleFloatingPanes",
            ScreenContext::ShowFloatingPanes => "ShowFloatingPanes",
            ScreenContext::HideFloatingPanes => "HideFloatingPanes",
            ScreenContext::TogglePaneEmbedOrFloating => "TogglePaneEmbedOrFloating",
            ScreenContext::HorizontalSplit => "HorizontalSplit",
            ScreenContext::VerticalSplit => "VerticalSplit",
            ScreenContext::WriteCharacter => "WriteCharacter",
            ScreenContext::ResizeLeft => "ResizeLeft",
            ScreenContext::ResizeRight => "ResizeRight",
            ScreenContext::ResizeDown => "ResizeDown",
            ScreenContext::ResizeUp => "ResizeUp",
            ScreenContext::ResizeIncrease => "ResizeIncrease",
            ScreenContext::ResizeDecrease => "ResizeDecrease",
            ScreenContext::SwitchFocus => "SwitchFocus",
            ScreenContext::FocusNextPane => "FocusNextPane",
            ScreenContext::FocusPreviousPane => "FocusPreviousPane",
            ScreenContext::FocusPaneAt => "FocusPaneAt",
            ScreenContext::MoveFocusLeft => "MoveFocusLeft",
            ScreenContext::MoveFocusLeftOrPreviousTab => "MoveFocusLeftOrPreviousTab",
            ScreenContext::MoveFocusDown => "MoveFocusDown",
            ScreenContext::MoveFocusUp => "MoveFocusUp",
            ScreenContext::MoveFocusRight => "MoveFocusRight",
            ScreenContext::MoveFocusRightOrNextTab => "MoveFocusRightOrNextTab",
            ScreenContext::MovePane => "MovePane",
            ScreenContext::MovePaneDown => "MovePaneDown",
            ScreenContext::MovePaneUp => "MovePaneUp",
            ScreenContext::MovePaneRight => "MovePaneRight",
            ScreenContext::MovePaneLeft => "MovePaneLeft",
            ScreenContext::Exit => "Exit",
            ScreenContext::DumpScreen => "DumpScreen",
            ScreenContext::EditScrollback => "EditScrollback",
            ScreenContext::ScrollUp => "ScrollUp",
            ScreenContext::ScrollUpAt => "ScrollUpAt",
            ScreenContext::ScrollDown => "ScrollDown",
            ScreenContext::ScrollDownAt => "ScrollDownAt",
            ScreenContext::ScrollToBottom => "ScrollToBottom",
            ScreenContext::PageScrollUp => "PageScrollUp",
            ScreenContext::PageScrollDown => "PageScrollDown",
            ScreenContext::HalfPageScrollUp => "HalfPageScrollUp",
            ScreenContext::HalfPageScrollDown => "HalfPageScrollDown",
            ScreenContext::ClearScroll => "ClearScroll",
            ScreenContext::CloseFocusedPane => "CloseFocusedPane",
            ScreenContext::ToggleActiveSyncTab => "ToggleActiveSyncTab",
            ScreenContext::ToggleActiveTerminalFullscreen => "ToggleActiveTerminalFullscreen",
            ScreenContext::TogglePaneFrames => "TogglePaneFrames",
            ScreenContext::SetSelectable => "SetSelectable",
            ScreenContext::SetInvisibleBorders => "SetInvisibleBorders",
            ScreenContext::SetFixedHeight => "SetFixedHeight",
            ScreenContext::SetFixedWidth => "SetFixedWidth",
            ScreenContext::ClosePane => "ClosePane",
            ScreenContext::UpdatePaneName => "UpdatePaneName",
            ScreenContext::UndoRenamePane => "UndoRenamePane",
            ScreenContext::NewTab => "NewTab",
            ScreenContext::SwitchTabNext => "SwitchTabNext",
            ScreenContext::SwitchTabPrev => "SwitchTabPrev",
            ScreenContext::CloseTab => "CloseTab",
            ScreenContext::GoToTab => "GoToTab",
            ScreenContext::UpdateTabName => "UpdateTabName",
            ScreenContext::UndoRenameTab => "UndoRenameTab",
            ScreenContext::TerminalResize => "TerminalResize",
            ScreenContext::TerminalPixelDimensions => "TerminalPixelDimensions",
            ScreenContext::TerminalBackgroundColor => "TerminalBackgroundColor",
            ScreenContext::TerminalForegroundColor => "TerminalForegroundColor",
            ScreenContext::TerminalColorRegisters => "TerminalColorRegisters",
            ScreenContext::ChangeMode => "ChangeMode",
            ScreenContext::ChangeModeForAllClients => "ChangeModeForAllClients",
            ScreenContext::LeftClick => "LeftClick",
            ScreenContext::RightClick => "RightClick",
            ScreenContext::MiddleClick => "MiddleClick",
            ScreenContext::LeftMouseRelease => "LeftMouseRelease",
            ScreenContext::RightMouseRelease => "RightMouseRelease",
            ScreenContext::MiddleMouseRelease => "MiddleMouseRelease",
            ScreenContext::MouseHoldLeft => "MouseHoldLeft",
            ScreenContext::MouseHoldRight => "MouseHoldRight",
            ScreenContext::MouseHoldMiddle => "MouseHoldMiddle",
            ScreenContext::Copy => "Copy",
            ScreenContext::ToggleTab => "ToggleTab",
            ScreenContext::AddClient => "AddClient",
            ScreenContext::RemoveClient => "RemoveClient",
            ScreenContext::AddOverlay => "AddOverlay",
            ScreenContext::RemoveOverlay => "RemoveOverlay",
            ScreenContext::ConfirmPrompt => "ConfirmPrompt",
            ScreenContext::DenyPrompt => "DenyPrompt",
            ScreenContext::UpdateSearch => "UpdateSearch",
            ScreenContext::SearchDown => "SearchDown",
            ScreenContext::SearchUp => "SearchUp",
            ScreenContext::SearchToggleCaseSensitivity => "SearchToggleCaseSensitivity",
            ScreenContext::SearchToggleWholeWord => "SearchToggleWholeWord",
            ScreenContext::SearchToggleWrap => "SearchToggleWrap",
        }
    }

    /// The length of the name of the call, and three of its letters.
    spec fn letters(self) -> (nat, char, char, char) {
        match self {
            ScreenContext::HandlePtyBytes => (14, 'n', 'P', 'B'),
            ScreenContext::Render => (6, 'n', ' ', ' '),
            ScreenContext::NewPane => (7, 'w', 'e', ' '),
            ScreenContext::OpenInPlaceEditor => (17, 'e', 'P', 'c'),
            ScreenContext::ToggleFloatingPanes => (19, 'g', 'F', 'a'),
            ScreenContext::ShowFloatingPanes => (17, 'o', 'o', 'i'),
            ScreenContext::HideFloatingPanes => (17, 'd', 'o', 'i'),
            ScreenContext::TogglePaneEmbedOrFloating => (25, 'g', 'P', 'e'),
            ScreenContext::HorizontalSplit => (15, 'r', 'n', 'l'),
            ScreenContext::VerticalSplit => (13, 'r', 'a', 'p'),
            ScreenContext::WriteCharacter => (14, 'i', 'h', 'a'),
            ScreenContext::ResizeLeft => (10, 's', 'L', 't'),
            ScreenContext::ResizeRight => (11, 's', 'R', 'h'),
            ScreenContext::ResizeDown => (10, 's', 'D', 'n'),
            ScreenContext::ResizeUp => (8, 's', 'U', ' '),
            ScreenContext::ResizeIncrease => (14, 's', 'I', 'r'),
            ScreenContext::ResizeDecrease => (14, 's', 'D', 'r'),
            ScreenContext::SwitchFocus => (11, 'i', 'F', 'u'),
            ScreenContext::FocusNextPane => (13, 'c', 'e', 'P'),
            ScreenContext::FocusPreviousPane => (17, 'c', 'r', 'i'),
            ScreenContext::FocusPaneAt => (11, 'c', 'a', 'A'),
            ScreenContext::MoveFocusLeft => (13, 'v', 'c', 'L'),
            ScreenContext::MoveFocusLeftOrPreviousTab => (26, 'v', 'c', 'L'),
            ScreenContext::MoveFocusDown => (13, 'v', 'c', 'D'),
            ScreenContext::MoveFocusUp => (11, 'v', 'c', 'U'),
            ScreenContext::MoveFocusRight => (14, 'v', 'c', 'R'),
            ScreenContext::MoveFocusRightOrNextTab => (23, 'v', 'c', 'R'),
            ScreenContext::MovePane => (8, 'v', 'n', ' '),
            ScreenContext::MovePaneDown => (12, 'v', 'n', 'o'),
            ScreenContext::MovePaneUp => (10, 'v', 'n', 'p'),
            ScreenContext::MovePaneRight => (13, 'v', 'n', 'i'),
            ScreenContext::MovePaneLeft => (12, 'v', 'n', 'e'),
            ScreenContext::Exit => (4, 'i', ' ', ' '),
            ScreenContext::DumpScreen => (10, 'm', 'r', 'n'),
            ScreenContext::EditScrollback => (14, 'i', 'r', 'l'),
            ScreenContext::ScrollUp => (8, 'r', 'U', ' '),
            ScreenContext::ScrollUpAt => (10, 'r', 'U', 't'),
            ScreenContext::ScrollDown => (10, 'r', 'D', 'n'),
            ScreenContext::ScrollDownAt => (12, 'r', 'D', 'n'),
            ScreenContext::ScrollToBottom => (14, 'r', 'T', 'o'),
            ScreenContext::PageScrollUp => (12, 'g', 'r', 'l'),
            ScreenContext::PageScrollDown => (14, 'g', 'r', 'l'),
            ScreenContext::HalfPageScrollUp => (16, 'l', 'g', 'c'),
            ScreenContext::HalfPageScrollDown => (18, 'l', 'g', 'c'),
            ScreenContext::ClearScroll => (11, 'e', 'c', 'l'),
            ScreenContext::CloseFocusedPane => (16, 'o', 'o', 's'),
            ScreenContext::ToggleActiveSyncTab => (19, 'g', 'A', 'i'),
            ScreenContext::ToggleActiveTerminalFullscreen => (30, 'g', 'A', 'i'),
            ScreenContext::TogglePaneFrames => (16, 'g', 'P', 'e'),
            ScreenContext::SetSelectable => (13, 't', 'e', 'a'),
            ScreenContext::SetInvisibleBorders => (19, 't', 'i', 'b'),
            ScreenContext::SetFixedHeight => (14, 't', 'e', 'e'),
            ScreenContext::SetFixedWidth => (13, 't', 'e', 'i'),
            ScreenContext::ClosePane => (9, 'o', 'a', ' '),
            ScreenContext::UpdatePaneName => (14, 'd', 'P', 'e'),
            ScreenContext::UndoRenamePane => (14, 'd', 'n', 'e'),
            ScreenContext::NewTab => (6, 'w', ' ', ' '),
            ScreenContext::SwitchTabNext => (13, 'i', 'T', 'N'),
            ScreenContext::SwitchTabPrev => (13, 'i', 'T', 'P'),
            ScreenContext::CloseTab => (8, 'o', 'a', ' '),
            ScreenContext::GoToTab => (7, 'T', 'b', ' '),
            ScreenContext::UpdateTabName => (13, 'd', 'T', 'N'),
            ScreenContext::UndoRenameTab => (13, 'd', 'n', 'e'),
            ScreenContext::TerminalResize => (14, 'r', 'a', 'e'),
            ScreenContext::TerminalPixelDimensions => (23, 'r', 'a', 'i'),
            ScreenContext::TerminalBackgroundColor => (23, 'r', 'a', 'a'),
            ScreenContext::TerminalForegroundColor => (23, 'r', 'a', 'o'),
            ScreenContext::TerminalColorRegisters => (22, 'r', 'a', 'o'),
            ScreenContext::ChangeMode => (10, 'a', 'M', 'e'),
            ScreenContext::ChangeModeForAllClients => (23, 'a', 'M', 'e'),
            ScreenContext::LeftClick => (9, 'f', 'i', ' '),
            ScreenContext::RightClick => (10, 'g', 'l', 'k'),
            ScreenContext::MiddleClick => (11, 'd', 'C', 'c'),
            ScreenContext::LeftMouseRelease => (16, 'f', 'u', 'R'),
            ScreenContext::RightMouseRelease => (17, 'g', 'o', 'e'),
            ScreenContext::MiddleMouseRelease => (18, 'd', 'M', 's'),
            ScreenContext::MouseHoldLeft => (13, 'u', 'o', 'L'),
            ScreenContext::MouseHoldRight => (14, 'u', 'o', 'R'),
            ScreenContext::MouseHoldMiddle => (15, 'u', 'o', 'M'),
            ScreenContext::Copy => (4, 'p', ' ', ' '),
            ScreenContext::ToggleTab => (9, 'g', 'T', ' '),
            ScreenContext::AddClient => (9, 'd', 'e', ' '),
            ScreenContext::RemoveClient => (12, 'm', 'C', 'e'),
            ScreenContext::AddOverlay => (10, 'd', 'r', 'y'),
            ScreenContext::RemoveOverlay => (13, 'm', 'O', 'r'),
            ScreenContext::ConfirmPrompt => (13, 'n', 'm', 'o'),
            ScreenContext::DenyPrompt => (10, 'n', 'o', 't'),
            ScreenContext::UpdateSearch => (12, 'd', 'S', 'r'),
            ScreenContext::SearchDown => (10, 'a', 'D', 'n'),
            ScreenContext::SearchUp => (8, 'a', 'U', ' '),
            ScreenContext::SearchToggleCaseSensitivity => (27, 'a', 'T', 'g'),
            ScreenContext::SearchToggleWholeWord => (21, 'a', 'T', 'g'),
            ScreenContext::SearchToggleWrap => (16, 'a', 'T', 'g'),
        }
    }

    /// The name of a call holds no escape character, and has the letters that are said of it.
    proof fn lemma_text(self)
        ensures
            !self.text().contains('\u{1b}'),
            letters_of(self.text()) == self.letters(),
    {
        match self {
            ScreenContext::HandlePtyBytes => reveal_strlit("HandlePtyBytes"),
            ScreenContext::Render => reveal_strlit("Render"),
            ScreenContext::NewPane => reveal_strlit("NewPane"),
            ScreenContext::OpenInPlaceEditor => reveal_strlit("OpenInPlaceEditor"),
            ScreenContext::ToggleFloatingPanes => reveal_strlit("ToggleFloatingPanes"),
            ScreenContext::ShowFloatingPanes => reveal_strlit("ShowFloatingPanes"),
            ScreenContext::HideFloatingPanes => reveal_strlit("HideFloatingPanes"),
            ScreenContext::TogglePaneEmbedOrFloating => reveal_strlit("TogglePaneEmbedOrFloating"),
            ScreenContext::HorizontalSplit => reveal_strlit("HorizontalSplit"),
            ScreenContext::VerticalSplit => reveal_strlit("VerticalSplit"),
            ScreenContext::WriteCharacter => reveal_strlit("WriteCharacter"),
            ScreenContext::ResizeLeft => reveal_strlit("ResizeLeft"),
            ScreenContext::ResizeRight => reveal_strlit("ResizeRight"),
            ScreenContext::ResizeDown => reveal_strlit("ResizeDown"),
            ScreenContext::ResizeUp => reveal_strlit("ResizeUp"),
            ScreenContext::ResizeIncrease => reveal_strlit("ResizeIncrease"),
            ScreenContext::ResizeDecrease => reveal_strlit("ResizeDecrease"),
            ScreenContext::SwitchFocus => reveal_strlit("SwitchFocus"),
            ScreenContext::FocusNextPane => reveal_strlit("FocusNextPane"),
            ScreenContext::FocusPreviousPane => reveal_strlit("FocusPreviousPane"),
            ScreenContext::FocusPaneAt => reveal_strlit("FocusPaneAt"),
            ScreenContext::MoveFocusLeft => reveal_strlit("MoveFocusLeft"),
            ScreenContext::MoveFocusLeftOrPreviousTab => reveal_strlit("MoveFocusLeftOrPreviousTab"),
            ScreenContext::MoveFocusDown => reveal_strlit("MoveFocusDown"),
            ScreenContext::MoveFocusUp => reveal_strlit("MoveFocusUp"),
            ScreenContext::MoveFocusRight => reveal_strlit("MoveFocusRight"),
            ScreenContext::MoveFocusRightOrNextTab => reveal_strlit("MoveFocusRightOrNextTab"),
            ScreenContext::MovePane => reveal_strlit("MovePane"),
            ScreenContext::MovePaneDown => reveal_strlit("MovePaneDown"),
            ScreenContext::MovePaneUp => reveal_strlit("MovePaneUp"),
            ScreenContext::MovePaneRight => reveal_strlit("MovePaneRight"),
            ScreenContext::MovePaneLeft => reveal_strlit("MovePaneLeft"),
            ScreenContext::Exit => reveal_strlit("Exit"),
            ScreenContext::DumpScreen => reveal_strlit("DumpScreen"),
            ScreenContext::EditScrollback => reveal_strlit("EditScrollback"),
            ScreenContext::ScrollUp => reveal_strlit("ScrollUp"),
            ScreenContext::ScrollUpAt => reveal_strlit("ScrollUpAt"),
            ScreenContext::ScrollDown => reveal_strlit("ScrollDown"),
            ScreenContext::ScrollDownAt => reveal_strlit("ScrollDownAt"),
            ScreenContext::ScrollToBottom => reveal_strlit("ScrollToBottom"),
            ScreenContext::PageScrollUp => reveal_strlit("PageScrollUp"),
            ScreenContext::PageScrollDown => reveal_strlit("PageScrollDown"),
            ScreenContext::HalfPageScrollUp => reveal_strlit("HalfPageScrollUp"),
            ScreenContext::HalfPageScrollDown => reveal_strlit("HalfPageScrollDown"),
            ScreenContext::ClearScroll => reveal_strlit("ClearScroll"),
            ScreenContext::CloseFocusedPane => reveal_strlit("CloseFocusedPane"),
            ScreenContext::ToggleActiveSyncTab => reveal_strlit("ToggleActiveSyncTab"),
            ScreenContext::ToggleActiveTerminalFullscreen => reveal_strlit("ToggleActiveTerminalFullscreen"),
            ScreenContext::TogglePaneFrames => reveal_strlit("TogglePaneFrames"),
            ScreenContext::SetSelectable => reveal_strlit("SetSelectable"),
            ScreenContext::SetInvisibleBorders => reveal_strlit("SetInvisibleBorders"),
            ScreenContext::SetFixedHeight => reveal_strlit("SetFixedHeight"),
            ScreenContext::SetFixedWidth => reveal_strlit("SetFixedWidth"),
            ScreenContext::ClosePane => reveal_strlit("ClosePane"),
            ScreenContext::UpdatePaneName => reveal_strlit("UpdatePaneName"),
            ScreenContext::UndoRenamePane => reveal_strlit("UndoRenamePane"),
            ScreenContext::NewTab => reveal_strlit("NewTab"),
            ScreenContext::SwitchTabNext => reveal_strlit("SwitchTabNext"),
            ScreenContext::SwitchTabPrev => reveal_strlit("SwitchTabPrev"),
            ScreenContext::CloseTab => reveal_strlit("CloseTab"),
            ScreenContext::GoToTab => reveal_strlit("GoToTab"),
            ScreenContext::UpdateTabName => reveal_strlit("UpdateTabName"),
            ScreenContext::UndoRenameTab => reveal_strlit("UndoRenameTab"),
            ScreenContext::TerminalResize => reveal_strlit("TerminalResize"),
            ScreenContext::TerminalPixelDimensions => reveal_strlit("TerminalPixelDimensions"),
            ScreenContext::TerminalBackgroundColor => reveal_strlit("TerminalBackgroundColor"),
            ScreenContext::TerminalForegroundColor => reveal_strlit("TerminalForegroundColor"),
            ScreenContext::TerminalColorRegisters => reveal_strlit("TerminalColorRegisters"),
            ScreenContext::ChangeMode => reveal_strlit("ChangeMode"),
            ScreenContext::ChangeModeForAllClients => reveal_strlit("ChangeModeForAllClients"),
            ScreenContext::LeftClick => reveal_strlit("LeftClick"),
            ScreenContext::RightClick => reveal_strlit("RightClick"),
            ScreenContext::MiddleClick => reveal_strlit("MiddleClick"),
            ScreenContext::LeftMouseRelease => reveal_strlit("LeftMouseRelease"),
            ScreenContext::RightMouseRelease => reveal_strlit("RightMouseRelease"),
            ScreenContext::MiddleMouseRelease => reveal_strlit("MiddleMouseRelease"),
            ScreenContext::MouseHoldLeft => reveal_strlit("MouseHoldLeft"),
            ScreenContext::MouseHoldRight => reveal_strlit("MouseHoldRight"),
            ScreenContext::MouseHoldMiddle => reveal_strlit("MouseHoldMiddle"),
            ScreenContext::Copy => reveal_strlit("Copy"),
            ScreenContext::ToggleTab => reveal_strlit("ToggleTab"),
            ScreenContext::AddClient => reveal_strlit("AddClient"),
            ScreenContext::RemoveClient => reveal_strlit("RemoveClient"),
            ScreenContext::AddOverlay => reveal_strlit("AddOverlay"),
            ScreenContext::RemoveOverlay => reveal_strlit("RemoveOverlay"),
            ScreenContext::ConfirmPrompt => reveal_strlit("ConfirmPrompt"),
            ScreenContext::DenyPrompt => reveal_strlit("DenyPrompt"),
            ScreenContext::UpdateSearch => reveal_strlit("UpdateSearch"),
            ScreenContext::SearchDown => reveal_strlit("SearchDown"),
            ScreenContext::SearchUp => reveal_strlit("SearchUp"),
            ScreenContext::SearchToggleCaseSensitivity => reveal_strlit("SearchToggleCaseSensitivity"),
            ScreenContext::SearchToggleWholeWord => reveal_strlit("SearchToggleWholeWord"),
            ScreenContext::SearchToggleWrap => reveal_strlit("SearchToggleWrap"),
        }
    }

    /// No two calls have the same name.
    proof fn lemma_text_is_unique(self, other: Self)
        requires
            self.text() == other.text(),
        ensures
            self == other,
    {
        self.lemma_text();
        other.lemma_text();
    }
}

/// Calls to the pseudoterminal thread, one for each of its instructions.
#[derive(Debug, Clone, Copy, PartialEq, Eq, Structural)]
pub enum PtyContext {
    SpawnTerminal,
    OpenInPlaceEditor,
    SpawnTerminalVertically,
    SpawnTerminalHorizontally,
    UpdateActivePane,
    GoToTab,
    NewTab,
    ClosePane,
    CloseTab,
    Exit,
}

impl PtyContext {
    /// The name of the call.
    pub open spec fn text(self) -> Seq<char> {
        match self {
            PtyContext::SpawnTerminal => "SpawnTerminal"@,
            PtyContext::OpenInPlaceEditor => "OpenInPlaceEditor"@,
            PtyContext::SpawnTerminalVertically => "SpawnTerminalVertically"@,
            PtyContext::SpawnTerminalHorizontally => "SpawnTerminalHorizontally"@,
            PtyContext::UpdateActivePane => "UpdateActivePane"@,
            PtyContext::GoToTab => "GoToTab"@,
            PtyContext::NewTab => "NewTab"@,
            PtyContext::ClosePane => "ClosePane"@,
            PtyContext::CloseTab => "CloseTab"@,
            PtyContext::Exit => "Exit"@,
        }
    }

    /// Returns the name of the call.
    pub fn name(self) -> (name: &'static str)
        ensures
            name@ == self.text(),
    {
        match self {
            PtyContext::SpawnTerminal => "SpawnTerminal",
            PtyContext::OpenInPlaceEditor => "OpenInPlaceEditor",
            PtyContext::SpawnTerminalVertically => "SpawnTerminalVertically",
            PtyContext::SpawnTerminalHorizontally => "SpawnTerminalHorizontally",
            PtyContext::UpdateActivePane => "UpdateActivePane",
            PtyContext::GoToTab => "GoToTab",
            PtyContext::NewTab => "NewTab",
            PtyContext::ClosePane => "ClosePane",
            PtyContext::CloseTab => "CloseTab",
            PtyContext::Exit => "Exit",
        }
    }

    /// The length of the name of the call, and three of its letters.
    spec fn letters(self) -> (nat, char, char, char) {
        match self {
            PtyContext::SpawnTerminal => (13, 'a', 'e', 'i'),
            PtyContext::OpenInPlaceEditor => (17, 'e', 'P', 'c'),
            PtyContext::SpawnTerminalVertically => (23, 'a', 'e', 'i'),
            PtyContext::SpawnTerminalHorizontally => (25, 'a', 'e', 'i'),
            PtyContext::UpdateActivePane => (16, 'd', 'A', 'i'),
            PtyContext::GoToTab => (7, 'T', 'b', ' '),
            PtyContext::NewTab => (6, 'w', ' ', ' '),
            PtyContext::ClosePane => (9, 'o', 'a', ' '),
            PtyContext::CloseTab => (8, 'o', 'a', ' '),
            PtyContext::Exit => (4, 'i', ' ', ' '),
        }
    }

    /// The name of a call holds no escape character, and has the letters that are said of it.
    proof fn lemma_text(self)
        ensures
            !self.text().contains('\u{1b}'),
            letters_of(self.text()) == self.letters(),
    {
        match self {
            PtyContext::SpawnTerminal => reveal_strlit("SpawnTerminal"),
            PtyContext::OpenInPlaceEditor => reveal_strlit("OpenInPlaceEditor"),
            PtyContext::SpawnTerminalVertically => reveal_strlit("SpawnTerminalVertically"),
            PtyContext::SpawnTerminalHorizontally => reveal_strlit("SpawnTerminalHorizontally"),
            PtyContext::UpdateActivePane => reveal_strlit("UpdateActivePane"),
            PtyContext::GoToTab => reveal_strlit("GoToTab"),
            PtyContext::NewTab => reveal_strlit("NewTab"),
            PtyContext::ClosePane => reveal_strlit("ClosePane"),
            PtyContext::CloseTab => reveal_strlit("CloseTab"),
            PtyContext::Exit => reveal_strlit("Exit"),
        }
    }

    /// No two calls have the same name.
    proof fn lemma_text_is_unique(self, other: Self)
        requires
            self.text() == other.text(),
        ensures
            self == other,
    {
        self.lemma_text();
        other.lemma_text();
    }
}

/// Calls to the plugin thread, one for each of its instructions.
#[derive(Debug, Clone, Copy, PartialEq, Eq, Structural)]
pub enum PluginContext {
    Load,
    Update,
    Render,
    Unload,
    Exit,
    AddClient,
    RemoveClient,
}

impl PluginContext {
    /// The name of the call.
    pub open spec fn text(self) -> Seq<char> {
        match self {
            PluginContext::Load => "Load"@,
            PluginContext::Update => "Update"@,
            PluginContext::Render => "Render"@,
            PluginContext::Unload => "Unload"@,
            PluginContext::Exit => "Exit"@,
            PluginContext::AddClient => "AddClient"@,
            PluginContext::RemoveClient => "RemoveClient"@,
        }
    }

    /// Returns the name of the call.
    pub fn name(self) -> (name: &'static str)
        ensures
            name@ == self.text(),
    {
        match self {
            PluginContext::Load => "Load",
            PluginContext::Update => "Update",
            PluginContext::Render => "Render",
            PluginContext::Unload => "Unload",
            PluginContext::Exit => "Exit",
            PluginContext::AddClient => "AddClient",
            PluginContext::RemoveClient => "RemoveClient",
        }
    }

    /// The length of the name of the call, and three of its letters.
    spec fn letters(self) -> (nat, char, char, char) {
        match self {
            PluginContext::Load => (4, 'a', ' ', ' '),
            PluginContext::Update => (6, 'd', ' ', ' '),
            PluginContext::Render => (6, 'n', ' ', ' '),
            PluginContext::Unload => (6, 'l', ' ', ' '),
            PluginContext::Exit => (4, 'i', ' ', ' '),
            PluginContext::AddClient => (9, 'd', 'e', ' '),
            PluginContext::RemoveClient => (12, 'm', 'C', 'e'),
        }
    }

    /// The name of a call holds no escape character, and has the letters that are said of it.
    proof fn lemma_text(self)
        ensures
            !self.text().contains('\u{1b}'),
            letters_of(self.text()) == self.letters(),
    {
        match self {
            PluginContext::Load => reveal_strlit("Load"),
            PluginContext::Update => reveal_strlit("Update"),
            PluginContext::Render => reveal_strlit("Render"),
            PluginContext::Unload => reveal_strlit("Unload"),
            PluginContext::Exit => reveal_strlit("Exit"),
            PluginContext::AddClient => reveal_strlit("AddClient"),
            PluginContext::RemoveClient => reveal_strlit("RemoveClient"),
        }
    }

    /// No two calls have the same name.
    proof fn lemma_text_is_unique(self, other: Self)
        requires
            self.text() == other.text(),
        ensures
            self == other,
    {
        self.lemma_text();
        other.lemma_text();
    }
}

/// Calls to the client, one for each of its instructions.
#[derive(Debug, Clone, Copy, PartialEq, Eq, Structural)]
pub enum ClientContext {
    Exit,
    Error,
    UnblockInputThread,
    Render,
    ServerError,
    SwitchToMode,
    Connected,
    ActiveClients,
    OwnClientId,
}

impl ClientContext {
    /// The name of the call.
    pub open spec fn text(self) -> Seq<char> {
        match self {
            ClientContext::Exit => "Exit"@,
            ClientContext::Error => "Error"@,
            ClientContext::UnblockInputThread => "UnblockInputThread"@,
            ClientContext::Render => "Render"@,
            ClientContext::ServerError => "ServerError"@,
            ClientContext::SwitchToMode => "SwitchToMode"@,
            ClientContext::Connected => "Connected"@,
            ClientContext::ActiveClients => "ActiveClients"@,
            ClientContext::OwnClientId => "OwnClientId"@,
        }
    }

    /// Returns the name of the call.
    pub fn name(self) -> (name: &'static str)
        ensures
            name@ == self.text(),
    {
        match self {
            ClientContext::Exit => "Exit",
            ClientContext::Error => "Error",
            ClientContext::UnblockInputThread => "UnblockInputThread",
            ClientContext::Render => "Render",
            ClientContext::ServerError => "ServerError",
            ClientContext::SwitchToMode => "SwitchToMode",
            ClientContext::Connected => "Connected",
            ClientContext::ActiveClients => "ActiveClients",
            ClientContext::OwnClientId => "OwnClientId",
        }
    }

    /// The length of the name of the call, and three of its letters.
    spec fn letters(self) -> (nat, char, char, char) {
        match self {
            ClientContext::Exit => (4, 'i', ' ', ' '),
            ClientContext::Error => (5, 'r', ' ', ' '),
            ClientContext::UnblockInputThread => (18, 'b', 'k', 'p'),
            ClientContext::Render => (6, 'n', ' ', ' '),
            ClientContext::ServerError => (11, 'r', 'E', 'o'),
            ClientContext::SwitchToMode => (12, 'i', 'T', 'o'),
            ClientContext::Connected => (9, 'n', 't', ' '),
            ClientContext::ActiveClients => (13, 't', 'C', 'e'),
            ClientContext::OwnClientId => (11, 'n', 'e', 'I'),
        }
    }

    /// The name of a call holds no escape character, and has the letters that are said of it.
    proof fn lemma_text(self)
        ensures
            !self.text().contains('\u{1b}'),
            letters_of(self.text()) == self.letters(),
    {
        match self {
            ClientContext::Exit => reveal_strlit("Exit"),
            ClientContext::Error => reveal_strlit("Error"),
            ClientContext::UnblockInputThread => reveal_strlit("UnblockInputThread"),
            ClientContext::Render => reveal_strlit("Render"),
            ClientContext::ServerError => reveal_strlit("ServerError"),
            ClientContext::SwitchToMode => reveal_strlit("SwitchToMode"),
            ClientContext::Connected => reveal_strlit("Connected"),
            ClientContext::ActiveClients => reveal_strlit("ActiveClients"),
            ClientContext::OwnClientId => reveal_strlit("OwnClientId"),
        }
    }

    /// No two calls have the same name.
    proof fn lemma_text_is_unique(self, other: Self)
        requires
            self.text() == other.text(),
        ensures
            self == other,
    {
        self.lemma_text();
        other.lemma_text();
    }
}

/// Calls to the server, one for each of its instructions.
#[derive(Debug, Clone, Copy, PartialEq, Eq, Structural)]
pub enum ServerContext {
    NewClient,
    Render,
    UnblockInputThread,
    ClientExit,
    RemoveClient,
    Error,
    KillSession,
    DetachSession,
    AttachClient,
    ConnStatus,
    ActiveClients,
}

impl ServerContext {
    /// The name of the call.
    pub open spec fn text(self) -> Seq<char> {
        match self {
            ServerContext::NewClient => "NewClient"@,
            ServerContext::Render => "Render"@,
            ServerContext::UnblockInputThread => "UnblockInputThread"@,
            ServerContext::ClientExit => "ClientExit"@,
            ServerContext::RemoveClient => "RemoveClient"@,
            ServerContext::Error => "Error"@,
            ServerContext::KillSession => "KillSession"@,
            ServerContext::DetachSession => "DetachSession"@,
            ServerContext::AttachClient => "AttachClient"@,
            ServerContext::ConnStatus => "ConnStatus"@,
            ServerContext::ActiveClients => "ActiveClients"@,
        }
    }

    /// Returns the name of the call.
    pub fn name(self) -> (name: &'static str)
        ensures
            name@ == self.text(),
    {
        match self {
            ServerContext::NewClient => "NewClient",
            ServerContext::Render => "Render",
            ServerContext::UnblockInputThread => "UnblockInputThread",
            ServerContext::ClientExit => "ClientExit",
            ServerContext::RemoveClient => "RemoveClient",
            ServerContext::Error => "Error",
            ServerContext::KillSession => "KillSession",
            ServerContext::DetachSession => "DetachSession",
            ServerContext::AttachClient => "AttachClient",
            ServerContext::ConnStatus => "ConnStatus",
            ServerContext::ActiveClients => "ActiveClients",
        }
    }

    /// The length of the name of the call, and three of its letters.
    spec fn letters(self) -> (nat, char, char, char) {
        match self {
            ServerContext::NewClient => (9, 'w', 'e', ' '),
            ServerContext::Render => (6, 'n', ' ', ' '),
            ServerContext::UnblockInputThread => (18, 'b', 'k', 'p'),
            ServerContext::ClientExit => (10, 'i', 'E', 't'),
            ServerContext::RemoveClient => (12, 'm', 'C', 'e'),
            ServerContext::Error => (5, 'r', ' ', ' '),
            ServerContext::KillSession => (11, 'l', 's', 'o'),
            ServerContext::DetachSession => (13, 't', 'S', 's'),
            ServerContext::AttachClient => (12, 't', 'C', 'e'),
            ServerContext::ConnStatus => (10, 'n', 'a', 's'),
            ServerContext::ActiveClients => (13, 't', 'C', 'e'),
        }
    }

    /// The name of a call holds no escape character, and has the letters that are said of it.
    proof fn lemma_text(self)
        ensures
            !self.text().contains('\u{1b}'),
            letters_of(self.text()) == self.letters(),
    {
        match self {
            ServerContext::NewClient => reveal_strlit("NewClient"),
            ServerContext::Render => reveal_strlit("Render"),
            ServerContext::UnblockInputThread => reveal_strlit("UnblockInputThread"),
            ServerContext::ClientExit => reveal_strlit("ClientExit"),
            ServerContext::RemoveClient => reveal_strlit("RemoveClient"),
            ServerContext::Error => reveal_strlit("Error"),
            ServerContext::KillSession => reveal_strlit("KillSession"),
            ServerContext::DetachSession => reveal_strlit("DetachSession"),
            ServerContext::AttachClient => reveal_strlit("AttachClient"),
            ServerContext::ConnStatus => reveal_strlit("ConnStatus"),
            ServerContext::ActiveClients => reveal_strlit("ActiveClients"),
        }
    }

    /// No two calls have the same name.
    proof fn lemma_text_is_unique(self, other: Self)
        requires
            self.text() == other.text(),
        ensures
            self == other,
    {
        self.lemma_text();
        other.lemma_text();
    }
}

/// Calls to the pseudoterminal writer, one for each of its instructions.
#[derive(Debug, Clone, Copy, PartialEq, Eq, Structural)]
pub enum PtyWriteContext {
    Write,
    Exit,
}

impl PtyWriteContext {
    /// The name of the call.
    pub open spec fn text(self) -> Seq<char> {
        match self {
            PtyWriteContext::Write => "Write"@,
            PtyWriteContext::Exit => "Exit"@,
        }
    }

    /// Returns the name of the call.
    pub fn name(self) -> (name: &'static str)
        ensures
            name@ == self.text(),
    {
        match self {
            PtyWriteContext::Write => "Write",
            PtyWriteContext::Exit => "Exit",
        }
    }

    /// The length of the name of the call, and three of its letters.
    spec fn letters(self) -> (nat, char, char, char) {
        match self {
            PtyWriteContext::Write => (5, 'i', ' ', ' '),
            PtyWriteContext::Exit => (4, 'i', ' ', ' '),
        }
    }

    /// The name of a call holds no escape character, and has the letters that are said of it.
    proof fn lemma_text(self)
        ensures
            !self.text().contains('\u{1b}'),
            letters_of(self.text()) == self.letters(),
    {
        match self {
            PtyWriteContext::Write => reveal_strlit("Write"),
            PtyWriteContext::Exit => reveal_strlit("Exit"),
        }
    }

    /// No two calls have the same name.
    proof fn lemma_text_is_unique(self, other: Self)
        requires
            self.text() == other.text(),
        ensures
            self == other,
    {
        self.lemma_text();
        other.lemma_text();
    }
}

/// Whether a colon stands at the end of `label` and nowhere else.
spec fn ends_at_colon(label: Seq<char>) -> bool {
    &&& label.len() > 0
    &&& label.last() == ':'
    &&& forall|i: int| 0 <= i < label.len() - 1 ==> #[trigger] label[i] != ':'
}

/// A colon stands at the end of what a call names as its thread, and nowhere else.
proof fn lemma_label_ends_at_colon(call: ContextType)
    requires
        !(call is Empty),
    ensures
        ends_at_colon(call.label()),
{
    reveal_strlit("screen_thread:");
    reveal_strlit("pty_thread:");
    reveal_strlit("plugin_thread:");
    reveal_strlit("main_thread:");
    reveal_strlit("ipc_server:");
    reveal_strlit("stdin_handler_thread:");
    reveal_strlit("stream_terminal_bytes:");
    reveal_strlit("pty_writer_thread:");
}

/// Texts that start with the same text and go on with a label are equal only where the labels are,
/// and what follows them.
proof fn lemma_label_is_cut_off(
    start: Seq<char>,
    left: Seq<char>,
    left_rest: Seq<char>,
    right: Seq<char>,
    right_rest: Seq<char>,
)
    requires
        ends_at_colon(left),
        ends_at_colon(right),
        start + left + left_rest == start + right + right_rest,
    ensures
        left == right,
        left_rest == right_rest,
{
    let one = start + left + left_rest;
    let other = start + right + right_rest;
    let n = start.len() as int;
    if left.len() < right.len() {
        assert(one[n + left.len() - 1] == left.last());
        assert(other[n + left.len() - 1] == right[left.len() - 1]);
    }
    if right.len() < left.len() {
        assert(other[n + right.len() - 1] == right.last());
        assert(one[n + right.len() - 1] == left[right.len() - 1]);
    }
    let end = n + left.len();
    assert(left =~= one.subrange(n, end));
    assert(right =~= other.subrange(n, end));
    assert(left_rest =~= one.skip(end));
    assert(right_rest =~= other.skip(end));
}

/// The parts of a line, grouped behind its label.
proof fn lemma_grouped(
    start: Seq<char>,
    label: Seq<char>,
    reset: Seq<char>,
    space: Seq<char>,
    colour: Seq<char>,
    detail: Seq<char>,
    end: Seq<char>,
)
    ensures
        (start + label + reset) + space + (colour + detail + end) == start + label + (reset + space
            + colour + detail + end),
{
    assert((start + label + reset) + space + (colour + detail + end) =~= start + label + (reset
        + space + colour + detail + end));
}

/// Texts of the same start and end are equal only where what stands between is.
proof fn lemma_middle_is_cut_off(
    start: Seq<char>,
    left: Seq<char>,
    right: Seq<char>,
    end: Seq<char>,
)
    requires
        start + left + end == start + right + end,
    ensures
        left == right,
{
    let whole = start + left + end;
    assert(whole.len() == (start + right + end).len());
    let from = start.len() as int;
    assert(left =~= whole.subrange(from, from + left.len()));
    assert(right =~= (start + right + end).subrange(from, from + left.len()));
}

/// Under the same colour settings, two lines are equal only where their labels are, and their
/// details.
proof fn lemma_parts_are_cut_off(
    left: Colouring,
    right: Colouring,
    label: Seq<char>,
    detail: Seq<char>,
    other_label: Seq<char>,
    other_detail: Seq<char>,
)
    requires
        ends_at_colon(label),
        ends_at_colon(other_label),
        shown_pair(left.purple(label), right.green(detail)) == shown_pair(
            left.purple(other_label),
            right.green(other_detail),
        ),
    ensures
        label == other_label,
        detail == other_detail,
{
    let start = left.before("\u{1b}[35m"@);
    let middle = left.after() + " "@ + right.before("\u{1b}[32m"@);
    let end = right.after();
    lemma_grouped(start, label, left.after(), " "@, right.before("\u{1b}[32m"@), detail, end);
    lemma_grouped(
        start,
        other_label,
        left.after(),
        " "@,
        right.before("\u{1b}[32m"@),
        other_detail,
        end,
    );
    lemma_label_is_cut_off(
        start,
        label,
        middle + detail + end,
        other_label,
        middle + other_detail + end,
    );
    lemma_middle_is_cut_off(middle, detail, other_detail, end);
}

/// Two calls name the same thread and the same call on it only where they are the same call.
pub proof fn law_parts_tell_calls_apart(one: ContextType, other: ContextType)
    ensures
        one.label() == other.label() && one.detail() == other.detail() <==> one == other,
{
    if one.label() == other.label() && one.detail() == other.detail() {
        reveal_strlit("screen_thread:");
        reveal_strlit("pty_thread:");
        reveal_strlit("plugin_thread:");
        reveal_strlit("main_thread:");
        reveal_strlit("ipc_server:");
        reveal_strlit("stdin_handler_thread:");
        reveal_strlit("stream_terminal_bytes:");
        reveal_strlit("pty_writer_thread:");
        reveal_strlit("");
        assert(one.label().len() == other.label().len());
        assert(one.label().len() > 0 ==> one.label()[0] == other.label()[0]);
        match (one, other) {
            (ContextType::Screen(left), ContextType::Screen(right)) =>
                left.lemma_text_is_unique(right),
            (ContextType::Pty(left), ContextType::Pty(right)) => left.lemma_text_is_unique(right),
            (ContextType::Plugin(left), ContextType::Plugin(right)) =>
                left.lemma_text_is_unique(right),
            (ContextType::Client(left), ContextType::Client(right)) =>
                left.lemma_text_is_unique(right),
            (ContextType::IPCServer(left), ContextType::IPCServer(right)) =>
                left.lemma_text_is_unique(right),
            (ContextType::PtyWrite(left), ContextType::PtyWrite(right)) =>
                left.lemma_text_is_unique(right),
            _ => {},
        }
    }
}

/// A way to show a call is what some colour settings make of it.
pub proof fn law_call_shows_in_some_colours(call: ContextType, shown: Seq<char>)
    requires
        call.shows_as(shown),
    ensures
        exists|left: Colouring, right: Colouring| shown == #[trigger] call.shown_in(left, right),
{
    if call is Empty {
        assert(shown == call.shown_in(Colouring::Off, Colouring::Off));
    } else {
        let (left, right) = choose|left: Seq<char>, right: Seq<char>|
            #![trigger is_purple(call.label(), left), is_green(call.detail(), right)]
            is_purple(call.label(), left) && is_green(call.detail(), right) && shown == shown_pair(
                left,
                right,
            );
        let left_colours = choose|colours: Colouring|
            left == #[trigger] colours.purple(call.label());
        let right_colours = choose|colours: Colouring|
            right == #[trigger] colours.green(call.detail());
        assert(shown == call.shown_in(left_colours, right_colours));
    }
}

/// Under the same colour settings, two calls show alike only where they are the same call.
pub proof fn law_shown_calls_differ(
    one: ContextType,
    other: ContextType,
    left: Colouring,
    right: Colouring,
)
    ensures
        one.shown_in(left, right) == other.shown_in(left, right) <==> one == other,
{
    if one.shown_in(left, right) == other.shown_in(left, right) {
        reveal_strlit(" ");
        if one is Empty || other is Empty {
            assert(!(one is Empty) ==> one.shown_in(left, right).len() > 0);
            assert(!(other is Empty) ==> other.shown_in(left, right).len() > 0);
        } else {
            lemma_label_ends_at_colon(one);
            lemma_label_ends_at_colon(other);
            lemma_parts_are_cut_off(
                left,
                right,
                one.label(),
                one.detail(),
                other.label(),
                other.detail(),
            );
            law_parts_tell_calls_apart(one, other);
        }
    }
}

/// The parts of a call are those that it names, and there are none where there is no call.
pub proof fn law_parts_are_those_that_are_named(
    call: ContextType,
    parts: Option<(&'static str, &'static str)>,
)
    requires
        call_ensures(ContextType::parts, (call,), parts),
    ensures
        parts is None <==> call is Empty,
        parts is Some ==> (parts->0).0@ == call.label() && (parts->0).1@ == call.detail(),
{
}

/// Which thread a call names is up to its kind alone, and what it names as the call on that thread
/// is up to that call alone.
pub proof fn law_kind_names_the_thread(one: ContextType, other: ContextType)
    ensures
        one is Screen && other is Screen ==> one.label() == other.label(),
        one is Screen ==> one.detail() == one->Screen_0.text(),
        one is Pty && other is Pty ==> one.label() == other.label(),
        one is Pty ==> one.detail() == one->Pty_0.text(),
        one is Plugin && other is Plugin ==> one.label() == other.label(),
        one is Plugin ==> one.detail() == one->Plugin_0.text(),
        one is Client && other is Client ==> one.label() == other.label(),
        one is Client ==> one.detail() == one->Client_0.text(),
        one is IPCServer && other is IPCServer ==> one.label() == other.label(),
        one is IPCServer ==> one.detail() == one->IPCServer_0.text(),
        one is PtyWrite && other is PtyWrite ==> one.label() == other.label(),
        one is PtyWrite ==> one.detail() == one->PtyWrite_0.text(),
{
}

/// A call is shown as the thread, a space and the call on it, with nothing else but the escape
/// sequences of the colours around each.
pub proof fn law_shown_call_holds_its_parts(
    call: ContextType,
    shown: String,
    parts: Option<(&'static str, &'static str)>,
)
    requires
        call_ensures(ContextType::to_string, (&call,), shown),
        call_ensures(ContextType::parts, (call,), parts),
    ensures
        parts is None ==> shown@ == Seq::<char>::empty(),
        parts is Some ==> exists|left: Seq<char>, right: Seq<char>|
            #![trigger is_purple((parts->0).0@, left), is_green((parts->0).1@, right)]
            is_purple((parts->0).0@, left) && is_green((parts->0).1@, right) && shown@ == left + " "@
                + right,
{
}

} // verus!
