//! The names of the calls: the words that say what a call does, one after the other.

use crate::errors::contexts::{
    ClientContext, PluginContext, PtyContext, PtyWriteContext, ScreenContext, ServerContext,
};
use vstd::prelude::*;
use vstd::string::*;

verus! {

/// The name of a call to the screen is made of the words that say what it does.
pub proof fn law_screen_names_are_words(call: ScreenContext, name: &'static str)
    requires
        call_ensures(ScreenContext::name, (call,), name),
    ensures
        match call {
            ScreenContext::HandlePtyBytes => name@ == "Handle"@ + "Pty"@ + "Bytes"@,
            ScreenContext::Render => name@ == "Render"@,
            ScreenContext::NewPane => name@ == "New"@ + "Pane"@,
            ScreenContext::OpenInPlaceEditor => name@ == "Open"@ + "In"@ + "Place"@ + "Editor"@,
            ScreenContext::ToggleFloatingPanes => name@ == "Toggle"@ + "Floating"@ + "Panes"@,
            ScreenContext::ShowFloatingPanes => name@ == "Show"@ + "Floating"@ + "Panes"@,
            ScreenContext::HideFloatingPanes => name@ == "Hide"@ + "Floating"@ + "Panes"@,
            ScreenContext::TogglePaneEmbedOrFloating => name@ == "Toggle"@ + "Pane"@ + "Embed"@ + "Or"@ + "Floating"@,
            ScreenContext::HorizontalSplit => name@ == "Horizontal"@ + "Split"@,
            ScreenContext::VerticalSplit => name@ == "Vertical"@ + "Split"@,
            ScreenContext::WriteCharacter => name@ == "Write"@ + "Character"@,
            ScreenContext::ResizeLeft => name@ == "Resize"@ + "Left"@,
            ScreenContext::ResizeRight => name@ == "Resize"@ + "Right"@,
            ScreenContext::ResizeDown => name@ == "Resize"@ + "Down"@,
            ScreenContext::ResizeUp => name@ == "Resize"@ + "Up"@,
            ScreenContext::ResizeIncrease => name@ == "Resize"@ + "Increase"@,
            ScreenContext::ResizeDecrease => name@ == "Resize"@ + "Decrease"@,
            ScreenContext::SwitchFocus => name@ == "Switch"@ + "Focus"@,
            ScreenContext::FocusNextPane => name@ == "Focus"@ + "Next"@ + "Pane"@,
            ScreenContext::FocusPreviousPane => name@ == "Focus"@ + "Previous"@ + "Pane"@,
            ScreenContext::FocusPaneAt => name@ == "Focus"@ + "Pane"@ + "At"@,
            ScreenContext::MoveFocusLeft => name@ == "Move"@ + "Focus"@ + "Left"@,
            ScreenContext::MoveFocusLeftOrPreviousTab => name@ == "Move"@ + "Focus"@ + "Left"@ + "Or"@ + "Previous"@ + "Tab"@,
            ScreenContext::MoveFocusDown => name@ == "Move"@ + "Focus"@ + "Down"@,
            ScreenContext::MoveFocusUp => name@ == "Move"@ + "Focus"@ + "Up"@,
            ScreenContext::MoveFocusRight => name@ == "Move"@ + "Focus"@ + "Right"@,
            ScreenContext::MoveFocusRightOrNextTab => name@ == "Move"@ + "Focus"@ + "Right"@ + "Or"@ + "Next"@ + "Tab"@,
            ScreenContext::MovePane => name@ == "Move"@ + "Pane"@,
            ScreenContext::MovePaneDown => name@ == "Move"@ + "Pane"@ + "Down"@,
            ScreenContext::MovePaneUp => name@ == "Move"@ + "Pane"@ + "Up"@,
            ScreenContext::MovePaneRight => name@ == "Move"@ + "Pane"@ + "Right"@,
            ScreenContext::MovePaneLeft => name@ == "Move"@ + "Pane"@ + "Left"@,
            ScreenContext::Exit => name@ == "Exit"@,
            ScreenContext::DumpScreen => name@ == "Dump"@ + "Screen"@,
            ScreenContext::EditScrollback => name@ == "Edit"@ + "Scrollback"@,
            ScreenContext::ScrollUp => name@ == "Scroll"@ + "Up"@,
            ScreenContext::ScrollUpAt => name@ == "Scroll"@ + "Up"@ + "At"@,
            ScreenContext::ScrollDown => name@ == "Scroll"@ + "Down"@,
            ScreenContext::ScrollDownAt => name@ == "Scroll"@ + "Down"@ + "At"@,
            ScreenContext::ScrollToBottom => name@ == "Scroll"@ + "To"@ + "Bottom"@,
            ScreenContext::PageScrollUp => name@ == "Page"@ + "Scroll"@ + "Up"@,
            ScreenContext::PageScrollDown => name@ == "Page"@ + "Scroll"@ + "Down"@,
            ScreenContext::HalfPageScrollUp => name@ == "Half"@ + "Page"@ + "Scroll"@ + "Up"@,
            ScreenContext::HalfPageScrollDown => name@ == "Half"@ + "Page"@ + "Scroll"@ + "Down"@,
            ScreenContext::ClearScroll => name@ == "Clear"@ + "Scroll"@,
            ScreenContext::CloseFocusedPane => name@ == "Close"@ + "Focused"@ + "Pane"@,
            ScreenContext::ToggleActiveSyncTab => name@ == "Toggle"@ + "Active"@ + "Sync"@ + "Tab"@,
            ScreenContext::ToggleActiveTerminalFullscreen => name@ == "Toggle"@ + "Active"@ + "Terminal"@ + "Fullscreen"@,
            ScreenContext::TogglePaneFrames => name@ == "Toggle"@ + "Pane"@ + "Frames"@,
            ScreenContext::SetSelectable => name@ == "Set"@ + "Selectable"@,
            ScreenContext::SetInvisibleBorders => name@ == "Set"@ + "Invisible"@ + "Borders"@,
            ScreenContext::SetFixedHeight => name@ == "Set"@ + "Fixed"@ + "Height"@,
            ScreenContext::SetFixedWidth => name@ == "Set"@ + "Fixed"@ + "Width"@,
            ScreenContext::ClosePane => name@ == "Close"@ + "Pane"@,
            ScreenContext::UpdatePaneName => name@ == "Update"@ + "Pane"@ + "Name"@,
            ScreenContext::UndoRenamePane => name@ == "Undo"@ + "Rename"@ + "Pane"@,
            ScreenContext::NewTab => name@ == "New"@ + "Tab"@,
            ScreenContext::SwitchTabNext => name@ == "Switch"@ + "Tab"@ + "Next"@,
            ScreenContext::SwitchTabPrev => name@ == "Switch"@ + "Tab"@ + "Prev"@,
            ScreenContext::CloseTab => name@ == "Close"@ + "Tab"@,
            ScreenContext::GoToTab => name@ == "Go"@ + "To"@ + "Tab"@,
            ScreenContext::UpdateTabName => name@ == "Update"@ + "Tab"@ + "Name"@,
            ScreenContext::UndoRenameTab => name@ == "Undo"@ + "Rename"@ + "Tab"@,
            ScreenContext::TerminalResize => name@ == "Terminal"@ + "Resize"@,
            ScreenContext::TerminalPixelDimensions => name@ == "Terminal"@ + "Pixel"@ + "Dimensions"@,
            ScreenContext::TerminalBackgroundColor => name@ == "Terminal"@ + "Background"@ + "Color"@,
            ScreenContext::TerminalForegroundColor => name@ == "Terminal"@ + "Foreground"@ + "Color"@,
            ScreenContext::TerminalColorRegisters => name@ == "Terminal"@ + "Color"@ + "Registers"@,
            ScreenContext::ChangeMode => name@ == "Change"@ + "Mode"@,
            ScreenContext::ChangeModeForAllClients => name@ == "Change"@ + "Mode"@ + "For"@ + "All"@ + "Clients"@,
            ScreenContext::LeftClick => name@ == "Left"@ + "Click"@,
            ScreenContext::RightClick => name@ == "Right"@ + "Click"@,
            ScreenContext::MiddleClick => name@ == "Middle"@ + "Click"@,
            ScreenContext::LeftMouseRelease => name@ == "Left"@ + "Mouse"@ + "Release"@,
            ScreenContext::RightMouseRelease => name@ == "Right"@ + "Mouse"@ + "Release"@,
            ScreenContext::MiddleMouseRelease => name@ == "Middle"@ + "Mouse"@ + "Release"@,
            ScreenContext::MouseHoldLeft => name@ == "Mouse"@ + "Hold"@ + "Left"@,
            ScreenContext::MouseHoldRight => name@ == "Mouse"@ + "Hold"@ + "Right"@,
            ScreenContext::MouseHoldMiddle => name@ == "Mouse"@ + "Hold"@ + "Middle"@,
            ScreenContext::Copy => name@ == "Copy"@,
            ScreenContext::ToggleTab => name@ == "Toggle"@ + "Tab"@,
            ScreenContext::AddClient => name@ == "Add"@ + "Client"@,
            ScreenContext::RemoveClient => name@ == "Remove"@ + "Client"@,
            ScreenContext::AddOverlay => name@ == "Add"@ + "Overlay"@,
            ScreenContext::RemoveOverlay => name@ == "Remove"@ + "Overlay"@,
            ScreenContext::ConfirmPrompt => name@ == "Confirm"@ + "Prompt"@,
            ScreenContext::DenyPrompt => name@ == "Deny"@ + "Prompt"@,
            ScreenContext::UpdateSearch => name@ == "Update"@ + "Search"@,
            ScreenContext::SearchDown => name@ == "Search"@ + "Down"@,
            ScreenContext::SearchUp => name@ == "Search"@ + "Up"@,
            ScreenContext::SearchToggleCaseSensitivity => name@ == "Search"@ + "Toggle"@ + "Case"@ + "Sensitivity"@,
            ScreenContext::SearchToggleWholeWord => name@ == "Search"@ + "Toggle"@ + "Whole"@ + "Word"@,
            ScreenContext::SearchToggleWrap => name@ == "Search"@ + "Toggle"@ + "Wrap"@,
        },
{
    reveal_strlit("Handle");
    reveal_strlit("Pty");
    reveal_strlit("Bytes");
    reveal_strlit("New");
    reveal_strlit("Pane");
    reveal_strlit("Open");
    reveal_strlit("In");
    reveal_strlit("Place");
    reveal_strlit("Editor");
    reveal_strlit("Toggle");
    reveal_strlit("Floating");
    reveal_strlit("Panes");
    reveal_strlit("Show");
    reveal_strlit("Hide");
    reveal_strlit("Embed");
    reveal_strlit("Or");
    reveal_strlit("Horizontal");
    reveal_strlit("Split");
    reveal_strlit("Vertical");
    reveal_strlit("Write");
    reveal_strlit("Character");
    reveal_strlit("Resize");
    reveal_strlit("Left");
    reveal_strlit("Right");
    reveal_strlit("Down");
    reveal_strlit("Up");
    reveal_strlit("Increase");
    reveal_strlit("Decrease");
    reveal_strlit("Switch");
    reveal_strlit("Focus");
    reveal_strlit("Next");
    reveal_strlit("Previous");
    reveal_strlit("At");
    reveal_strlit("Move");
    reveal_strlit("Tab");
    reveal_strlit("Dump");
    reveal_strlit("Screen");
    reveal_strlit("Edit");
    reveal_strlit("Scrollback");
    reveal_strlit("Scroll");
    reveal_strlit("To");
    reveal_strlit("Bottom");
    reveal_strlit("Page");
    reveal_strlit("Half");
    reveal_strlit("Clear");
    reveal_strlit("Close");
    reveal_strlit("Focused");
    reveal_strlit("Active");
    reveal_strlit("Sync");
    reveal_strlit("Terminal");
    reveal_strlit("Fullscreen");
    reveal_strlit("Frames");
    reveal_strlit("Set");
    reveal_strlit("Selectable");
    reveal_strlit("Invisible");
    reveal_strlit("Borders");
    reveal_strlit("Fixed");
    reveal_strlit("Height");
    reveal_strlit("Width");
    reveal_strlit("Update");
    reveal_strlit("Name");
    reveal_strlit("Undo");
    reveal_strlit("Rename");
    reveal_strlit("Prev");
    reveal_strlit("Go");
    reveal_strlit("Pixel");
    reveal_strlit("Dimensions");
    reveal_strlit("Background");
    reveal_strlit("Color");
    reveal_strlit("Foreground");
    reveal_strlit("Registers");
    reveal_strlit("Change");
    reveal_strlit("Mode");
    reveal_strlit("For");
    reveal_strlit("All");
    reveal_strlit("Clients");
    reveal_strlit("Click");
    reveal_strlit("Middle");
    reveal_strlit("Mouse");
    reveal_strlit("Release");
    reveal_strlit("Hold");
    reveal_strlit("Add");
    reveal_strlit("Client");
    reveal_strlit("Remove");
    reveal_strlit("Overlay");
    reveal_strlit("Confirm");
    reveal_strlit("Prompt");
    reveal_strlit("Deny");
    reveal_strlit("Search");
    reveal_strlit("Case");
    reveal_strlit("Sensitivity");
    reveal_strlit("Whole");
    reveal_strlit("Word");
    reveal_strlit("Wrap");
    match call {
        ScreenContext::HandlePtyBytes => reveal_strlit("HandlePtyBytes"),
        ScreenContext::NewPane => reveal_strlit("NewPane"),
        ScreenContext::OpenInPlaceEditor => reveal_strlit("OpenInPlaceEditor"),
        ScreenContext::ToggleFloatingPanes => reveal_strlit("ToggleFloatingPanes"),
        ScreenContext::ShowFloatingPanes => reveal_strlit("ShowFloatingPanes"),
        ScreenContext::HideFloatingPanes => reveal_strlit("HideFloatingPanes"),
        ScreenContext::TogglePaneEmbedOrFloating => reveal_strlit("TogglePaneEmbedOrFloating"),
        ScreenContext::HorizontalSplit => reveal_strlit("HorizontalSplit"),
        ScreenContext::VerticalSplit => reveal_strlit("VerticalSplit"),
        ScreenContext::WriteCharacter => reveal_strlit("WriteCharacter"),
        ScreenContext::ResizeLeft => reveal_strlit("ResizeLeft"),
        ScreenContext::ResizeRight => reveal_strlit("ResizeRight"),
        ScreenContext::ResizeDown => reveal_strlit("ResizeDown"),
        ScreenContext::ResizeUp => reveal_strlit("ResizeUp"),
        ScreenContext::ResizeIncrease => reveal_strlit("ResizeIncrease"),
        ScreenContext::ResizeDecrease => reveal_strlit("ResizeDecrease"),
        ScreenContext::SwitchFocus => reveal_strlit("SwitchFocus"),
        ScreenContext::FocusNextPane => reveal_strlit("FocusNextPane"),
        ScreenContext::FocusPreviousPane => reveal_strlit("FocusPreviousPane"),
        ScreenContext::FocusPaneAt => reveal_strlit("FocusPaneAt"),
        ScreenContext::MoveFocusLeft => reveal_strlit("MoveFocusLeft"),
        ScreenContext::MoveFocusLeftOrPreviousTab => reveal_strlit("MoveFocusLeftOrPreviousTab"),
        ScreenContext::MoveFocusDown => reveal_strlit("MoveFocusDown"),
        ScreenContext::MoveFocusUp => reveal_strlit("MoveFocusUp"),
        ScreenContext::MoveFocusRight => reveal_strlit("MoveFocusRight"),
        ScreenContext::MoveFocusRightOrNextTab => reveal_strlit("MoveFocusRightOrNextTab"),
        ScreenContext::MovePane => reveal_strlit("MovePane"),
        ScreenContext::MovePaneDown => reveal_strlit("MovePaneDown"),
        ScreenContext::MovePaneUp => reveal_strlit("MovePaneUp"),
        ScreenContext::MovePaneRight => reveal_strlit("MovePaneRight"),
        ScreenContext::MovePaneLeft => reveal_strlit("MovePaneLeft"),
        ScreenContext::DumpScreen => reveal_strlit("DumpScreen"),
        ScreenContext::EditScrollback => reveal_strlit("EditScrollback"),
        ScreenContext::ScrollUp => reveal_strlit("ScrollUp"),
        ScreenContext::ScrollUpAt => reveal_strlit("ScrollUpAt"),
        ScreenContext::ScrollDown => reveal_strlit("ScrollDown"),
        ScreenContext::ScrollDownAt => reveal_strlit("ScrollDownAt"),
        ScreenContext::ScrollToBottom => reveal_strlit("ScrollToBottom"),
        ScreenContext::PageScrollUp => reveal_strlit("PageScrollUp"),
        ScreenContext::PageScrollDown => reveal_strlit("PageScrollDown"),
        ScreenContext::HalfPageScrollUp => reveal_strlit("HalfPageScrollUp"),
        ScreenContext::HalfPageScrollDown => reveal_strlit("HalfPageScrollDown"),
        ScreenContext::ClearScroll => reveal_strlit("ClearScroll"),
        ScreenContext::CloseFocusedPane => reveal_strlit("CloseFocusedPane"),
        ScreenContext::ToggleActiveSyncTab => reveal_strlit("ToggleActiveSyncTab"),
        ScreenContext::ToggleActiveTerminalFullscreen => reveal_strlit("ToggleActiveTerminalFullscreen"),
        ScreenContext::TogglePaneFrames => reveal_strlit("TogglePaneFrames"),
        ScreenContext::SetSelectable => reveal_strlit("SetSelectable"),
        ScreenContext::SetInvisibleBorders => reveal_strlit("SetInvisibleBorders"),
        ScreenContext::SetFixedHeight => reveal_strlit("SetFixedHeight"),
        ScreenContext::SetFixedWidth => reveal_strlit("SetFixedWidth"),
        ScreenContext::ClosePane => reveal_strlit("ClosePane"),
        ScreenContext::UpdatePaneName => reveal_strlit("UpdatePaneName"),
        ScreenContext::UndoRenamePane => reveal_strlit("UndoRenamePane"),
        ScreenContext::NewTab => reveal_strlit("NewTab"),
        ScreenContext::SwitchTabNext => reveal_strlit("SwitchTabNext"),
        ScreenContext::SwitchTabPrev => reveal_strlit("SwitchTabPrev"),
        ScreenContext::CloseTab => reveal_strlit("CloseTab"),
        ScreenContext::GoToTab => reveal_strlit("GoToTab"),
        ScreenContext::UpdateTabName => reveal_strlit("UpdateTabName"),
        ScreenContext::UndoRenameTab => reveal_strlit("UndoRenameTab"),
        ScreenContext::TerminalResize => reveal_strlit("TerminalResize"),
        ScreenContext::TerminalPixelDimensions => reveal_strlit("TerminalPixelDimensions"),
        ScreenContext::TerminalBackgroundColor => reveal_strlit("TerminalBackgroundColor"),
        ScreenContext::TerminalForegroundColor => reveal_strlit("TerminalForegroundColor"),
        ScreenContext::TerminalColorRegisters => reveal_strlit("TerminalColorRegisters"),
        ScreenContext::ChangeMode => reveal_strlit("ChangeMode"),
        ScreenContext::ChangeModeForAllClients => reveal_strlit("ChangeModeForAllClients"),
        ScreenContext::LeftClick => reveal_strlit("LeftClick"),
        ScreenContext::RightClick => reveal_strlit("RightClick"),
        ScreenContext::MiddleClick => reveal_strlit("MiddleClick"),
        ScreenContext::LeftMouseRelease => reveal_strlit("LeftMouseRelease"),
        ScreenContext::RightMouseRelease => reveal_strlit("RightMouseRelease"),
        ScreenContext::MiddleMouseRelease => reveal_strlit("MiddleMouseRelease"),
        ScreenContext::MouseHoldLeft => reveal_strlit("MouseHoldLeft"),
        ScreenContext::MouseHoldRight => reveal_strlit("MouseHoldRight"),
        ScreenContext::MouseHoldMiddle => reveal_strlit("MouseHoldMiddle"),
        ScreenContext::ToggleTab => reveal_strlit("ToggleTab"),
        ScreenContext::AddClient => reveal_strlit("AddClient"),
        ScreenContext::RemoveClient => reveal_strlit("RemoveClient"),
        ScreenContext::AddOverlay => reveal_strlit("AddOverlay"),
        ScreenContext::RemoveOverlay => reveal_strlit("RemoveOverlay"),
        ScreenContext::ConfirmPrompt => reveal_strlit("ConfirmPrompt"),
        ScreenContext::DenyPrompt => reveal_strlit("DenyPrompt"),
        ScreenContext::UpdateSearch => reveal_strlit("UpdateSearch"),
        ScreenContext::SearchDown => reveal_strlit("SearchDown"),
        ScreenContext::SearchUp => reveal_strlit("SearchUp"),
        ScreenContext::SearchToggleCaseSensitivity => reveal_strlit("SearchToggleCaseSensitivity"),
        ScreenContext::SearchToggleWholeWord => reveal_strlit("SearchToggleWholeWord"),
        ScreenContext::SearchToggleWrap => reveal_strlit("SearchToggleWrap"),
        _ => {},
    }
}

/// The name of a call to the pseudoterminal thread is made of the words that say what it does.
pub proof fn law_pty_names_are_words(call: PtyContext, name: &'static str)
    requires
        call_ensures(PtyContext::name, (call,), name),
    ensures
        match call {
            PtyContext::SpawnTerminal => name@ == "Spawn"@ + "Terminal"@,
            PtyContext::OpenInPlaceEditor => name@ == "Open"@ + "In"@ + "Place"@ + "Editor"@,
            PtyContext::SpawnTerminalVertically => name@ == "Spawn"@ + "Terminal"@ + "Vertically"@,
            PtyContext::SpawnTerminalHorizontally => name@ == "Spawn"@ + "Terminal"@ + "Horizontally"@,
            PtyContext::UpdateActivePane => name@ == "Update"@ + "Active"@ + "Pane"@,
            PtyContext::GoToTab => name@ == "Go"@ + "To"@ + "Tab"@,
            PtyContext::NewTab => name@ == "New"@ + "Tab"@,
            PtyContext::ClosePane => name@ == "Close"@ + "Pane"@,
            PtyContext::CloseTab => name@ == "Close"@ + "Tab"@,
            PtyContext::Exit => name@ == "Exit"@,
        },
{
    reveal_strlit("Spawn");
    reveal_strlit("Terminal");
    reveal_strlit("Open");
    reveal_strlit("In");
    reveal_strlit("Place");
    reveal_strlit("Editor");
    reveal_strlit("Vertically");
    reveal_strlit("Horizontally");
    reveal_strlit("Update");
    reveal_strlit("Active");
    reveal_strlit("Pane");
    reveal_strlit("Go");
    reveal_strlit("To");
    reveal_strlit("Tab");
    reveal_strlit("New");
    reveal_strlit("Close");
    match call {
        PtyContext::SpawnTerminal => reveal_strlit("SpawnTerminal"),
        PtyContext::OpenInPlaceEditor => reveal_strlit("OpenInPlaceEditor"),
        PtyContext::SpawnTerminalVertically => reveal_strlit("SpawnTerminalVertically"),
        PtyContext::SpawnTerminalHorizontally => reveal_strlit("SpawnTerminalHorizontally"),
        PtyContext::UpdateActivePane => reveal_strlit("UpdateActivePane"),
        PtyContext::GoToTab => reveal_strlit("GoToTab"),
        PtyContext::NewTab => reveal_strlit("NewTab"),
        PtyContext::ClosePane => reveal_strlit("ClosePane"),
        PtyContext::CloseTab => reveal_strlit("CloseTab"),
        _ => {},
    }
}

/// The name of a call to the plugin thread is made of the words that say what it does.
pub proof fn law_plugin_names_are_words(call: PluginContext, name: &'static str)
    requires
        call_ensures(PluginContext::name, (call,), name),
    ensures
        match call {
            PluginContext::Load => name@ == "Load"@,
            PluginContext::Update => name@ == "Update"@,
            PluginContext::Render => name@ == "Render"@,
            PluginContext::Unload => name@ == "Unload"@,
            PluginContext::Exit => name@ == "Exit"@,
            PluginContext::AddClient => name@ == "Add"@ + "Client"@,
            PluginContext::RemoveClient => name@ == "Remove"@ + "Client"@,
        },
{
    reveal_strlit("Add");
    reveal_strlit("Client");
    reveal_strlit("Remove");
    match call {
        PluginContext::AddClient => reveal_strlit("AddClient"),
        PluginContext::RemoveClient => reveal_strlit("RemoveClient"),
        _ => {},
    }
}

/// The name of a call to the client is made of the words that say what it does.
pub proof fn law_client_names_are_words(call: ClientContext, name: &'static str)
    requires
        call_ensures(ClientContext::name, (call,), name),
    ensures
        match call {
            ClientContext::Exit => name@ == "Exit"@,
            ClientContext::Error => name@ == "Error"@,
            ClientContext::UnblockInputThread => name@ == "Unblock"@ + "Input"@ + "Thread"@,
            ClientContext::Render => name@ == "Render"@,
            ClientContext::ServerError => name@ == "Server"@ + "Error"@,
            ClientContext::SwitchToMode => name@ == "Switch"@ + "To"@ + "Mode"@,
            ClientContext::Connected => name@ == "Connected"@,
            ClientContext::ActiveClients => name@ == "Active"@ + "Clients"@,
            ClientContext::OwnClientId => name@ == "Own"@ + "Client"@ + "Id"@,
        },
{
    reveal_strlit("Unblock");
    reveal_strlit("Input");
    reveal_strlit("Thread");
    reveal_strlit("Server");
    reveal_strlit("Error");
    reveal_strlit("Switch");
    reveal_strlit("To");
    reveal_strlit("Mode");
    reveal_strlit("Active");
    reveal_strlit("Clients");
    reveal_strlit("Own");
    reveal_strlit("Client");
    reveal_strlit("Id");
    match call {
        ClientContext::UnblockInputThread => reveal_strlit("UnblockInputThread"),
        ClientContext::ServerError => reveal_strlit("ServerError"),
        ClientContext::SwitchToMode => reveal_strlit("SwitchToMode"),
        ClientContext::ActiveClients => reveal_strlit("ActiveClients"),
        ClientContext::OwnClientId => reveal_strlit("OwnClientId"),
        _ => {},
    }
}

/// The name of a call to the server is made of the words that say what it does.
pub proof fn law_server_names_are_words(call: ServerContext, name: &'static str)
    requires
        call_ensures(ServerContext::name, (call,), name),
    ensures
        match call {
            ServerContext::NewClient => name@ == "New"@ + "Client"@,
            ServerContext::Render => name@ == "Render"@,
            ServerContext::UnblockInputThread => name@ == "Unblock"@ + "Input"@ + "Thread"@,
            ServerContext::ClientExit => name@ == "Client"@ + "Exit"@,
            ServerContext::RemoveClient => name@ == "Remove"@ + "Client"@,
            ServerContext::Error => name@ == "Error"@,
            ServerContext::KillSession => name@ == "Kill"@ + "Session"@,
            ServerContext::DetachSession => name@ == "Detach"@ + "Session"@,
            ServerContext::AttachClient => name@ == "Attach"@ + "Client"@,
            ServerContext::ConnStatus => name@ == "Conn"@ + "Status"@,
            ServerContext::ActiveClients => name@ == "Active"@ + "Clients"@,
        },
{
    reveal_strlit("New");
    reveal_strlit("Client");
    reveal_strlit("Unblock");
    reveal_strlit("Input");
    reveal_strlit("Thread");
    reveal_strlit("Exit");
    reveal_strlit("Remove");
    reveal_strlit("Kill");
    reveal_strlit("Session");
    reveal_strlit("Detach");
    reveal_strlit("Attach");
    reveal_strlit("Conn");
    reveal_strlit("Status");
    reveal_strlit("Active");
    reveal_strlit("Clients");
    match call {
        ServerContext::NewClient => reveal_strlit("NewClient"),
        ServerContext::UnblockInputThread => reveal_strlit("UnblockInputThread"),
        ServerContext::ClientExit => reveal_strlit("ClientExit"),
        ServerContext::RemoveClient => reveal_strlit("RemoveClient"),
        ServerContext::KillSession => reveal_strlit("KillSession"),
        ServerContext::DetachSession => reveal_strlit("DetachSession"),
        ServerContext::AttachClient => reveal_strlit("AttachClient"),
        ServerContext::ConnStatus => reveal_strlit("ConnStatus"),
        ServerContext::ActiveClients => reveal_strlit("ActiveClients"),
        _ => {},
    }
}

/// The name of a call to the pseudoterminal writer is made of the words that say what it does.
pub proof fn law_pty_write_names_are_words(call: PtyWriteContext, name: &'static str)
    requires
        call_ensures(PtyWriteContext::name, (call,), name),
    ensures
        match call {
            PtyWriteContext::Write => name@ == "Write"@,
            PtyWriteContext::Exit => name@ == "Exit"@,
        },
{
}

} // verus!
