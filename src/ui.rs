use vstd::prelude::*;
use vstd::string::*;

verus! {

pub const APP_TITLE: &'static str = "Gmail Cleaner";

pub const ABOUT_TITLE: &'static str = "About Gmail Cleaner";

pub const APP_VERSION: &'static str = "0.3.0-beta";

pub const ABOUT_TEXT: &'static str = "Gmail Cleaner is a desktop app which helps you find out which emails are taking up storage space in your Gmail account. This app runs on your desktop and does not send your email to any server. Therefore it is the most secure way of cleaning up your Gmail account. You don't need to give any permissions to this app, neither do you need to provide credentials. When you start it, a browser window opens up with Gmail's login page. Once Gmail authorizes you the app visually shows you what you can delete. The app does not read your email or cannot modify your Gmail account in any way.";

/// An event of the desktop shell.
pub enum Message {
    StartServer,
    StopServer,
    ShowAbout,
    Tick,
}

/// What the shell does in answer to an event.
pub enum UiAction {
    /// Starts the server, then opens the browser on it.
    StartServerAndOpenBrowser,
    StopServer,
    /// Shows the about dialog.
    ShowAbout { title: String, text: String },
    /// Only redraws.
    Refresh,
}

/// The contents of the about window.
pub struct AboutWindow {}

impl AboutWindow {
    pub fn title(&self) -> (r: String)
        ensures
            r@ == ABOUT_TITLE@,
    {
        ABOUT_TITLE.to_owned()
    }

    pub fn version(&self) -> (r: String)
        ensures
            r@ == APP_VERSION@,
    {
        APP_VERSION.to_owned()
    }

    pub fn text(&self) -> (r: String)
        ensures
            r@ == ABOUT_TEXT@,
    {
        ABOUT_TEXT.to_owned()
    }
}

/// The shell's answer to `message`; a start is only asked for while no server runs.
pub fn update(message: &Message, running: bool) -> (r: UiAction)
    ensures
        message is StartServer ==> if running {
            r is Refresh
        } else {
            r is StartServerAndOpenBrowser
        },
        message is StopServer ==> r is StopServer,
        message is ShowAbout ==> (r matches UiAction::ShowAbout { title, text } && title@
            == ABOUT_TITLE@ && text@ == ABOUT_TEXT@),
        message is Tick ==> r is Refresh,
{
    match message {
        Message::StartServer => if running {
            UiAction::Refresh
        } else {
            UiAction::StartServerAndOpenBrowser
        },
        Message::StopServer => UiAction::StopServer,
        Message::ShowAbout => {
            let about = AboutWindow {};
            UiAction::ShowAbout { title: about.title(), text: about.text() }
        },
        Message::Tick => UiAction::Refresh,
    }
}

} // verus!
