//! Plain state of the interface dialogs: the about box and the connection
//! and group entry forms.  Rendering them is the presentation layer's
//! business; the library only keeps their data.

use vstd::prelude::*;

verus! {

/// The about box: only whether it is open.
#[derive(Debug, Default)]
pub struct AboutDialog {
    pub show: bool,
}

impl AboutDialog {
    /// A closed about box.
    pub fn new() -> (d: AboutDialog)
        ensures
            !d.show,
    {
        AboutDialog { show: false }
    }

    /// Opens the about box.
    pub fn show(&mut self)
        ensures
            final(self).show,
    {
        self.show = true;
    }
}

/// The connection entry form.
#[derive(Debug, Default)]
pub struct ConnectionForm {
    pub name: String,
    pub host: String,
    pub port: u16,
    pub username: String,
    pub password: String,
    pub use_key_auth: bool,
    pub private_key_path: String,
    pub save_to_history: bool,
    pub group: Option<String>,
}

/// The group entry form.
#[derive(Debug, Default)]
pub struct GroupForm {
    pub name: String,
    pub description: String,
}

} // verus!
