//! Opening browsers and editors: the interactors used in tests, and what the
//! process-based interactor runs.
use vstd::prelude::*;

pub mod process;
pub mod testing;

verus! {

/// Why a browser could not be opened.
#[derive(Debug, Clone, PartialEq, Eq)]
pub enum OpenBrowserError {
    /// The browser failed, with this message.
    Io(String),
    /// There is no such command.
    CommandNotFound { command: String },
}

/// Why the editor could not be opened.
#[derive(Debug, Clone, PartialEq, Eq)]
pub struct OpenEditorError {
    pub message: String,
}

/// Opens a URL in the web browser.
pub trait OpenWebBrowser {
    fn open_browser(&mut self, url: &str) -> Result<(), OpenBrowserError>;
}

/// Opens a URL in the text browser.
pub trait OpenTextBrowser {
    fn open_text_browser(&mut self, url: &str) -> Result<(), OpenBrowserError>;
}

/// Lets the user edit a text.
pub trait OpenEditor {
    /// Whether the editor can be opened now; an interactor that can always open it
    /// keeps this default.
    open spec fn editor_ready(&self) -> bool {
        true
    }

    fn open_editor(&mut self, initial_content: &str) -> Result<String, OpenEditorError>
        requires
            old(self).editor_ready(),
    ;
}

/// Everything the application asks of the user's environment.
pub trait Interact: OpenWebBrowser + OpenTextBrowser + OpenEditor {}

} // verus!
