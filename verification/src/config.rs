//! The tool's configuration: a session name, how the terminal is opened, and
//! how hidden files are located in the editor.  A local configuration is
//! merged with the one from the user's home directory; every setting that the
//! local file leaves unset is taken from the home file.

use vstd::prelude::*;

verus! {

/// How a hidden file is located in the editor.
#[derive(Debug, Clone, Copy, PartialEq, Eq, Structural)]
pub enum HiddenMethod {
    /// Use the editor's open command, which always finds the file.
    Open,
    /// Use the editor's file picker, which keeps the cursor position but only
    /// finds hidden files when the picker is configured to show them.
    Picker,
}

/// Settings for opening a project session.
#[derive(Debug)]
pub struct OpenSection {
    /// The terminal-emulator command (and its leading arguments) inside which
    /// the multiplexer is started; when unset or empty, the multiplexer runs
    /// in the foreground.
    pub terminal: Option<Vec<String>>,
}

/// Settings for locating files in the editor.
#[derive(Debug)]
pub struct FindSection {
    /// The method used for hidden files.
    pub hidden_method: Option<HiddenMethod>,
}

/// The whole configuration.
#[derive(Debug)]
pub struct Config {
    /// The multiplexer session name.
    pub session: Option<String>,
    pub open: OpenSection,
    pub find: FindSection,
}

impl Config {
    /// Fills every setting that is unset here from `other`: the local
    /// configuration wins over the home configuration it is merged with.
    pub fn merge(&mut self, other: Config)
        ensures
            final(self).session == if old(self).session is Some {
                old(self).session
            } else {
                other.session
            },
            final(self).open.terminal == if old(self).open.terminal is Some {
                old(self).open.terminal
            } else {
                other.open.terminal
            },
            final(self).find.hidden_method == if old(self).find.hidden_method is Some {
                old(self).find.hidden_method
            } else {
                other.find.hidden_method
            },
    {
        if self.session.is_none() {
            self.session = other.session;
        }
        if self.open.terminal.is_none() {
            self.open.terminal = other.open.terminal;
        }
        if self.find.hidden_method.is_none() {
            self.find.hidden_method = other.find.hidden_method;
        }
    }
}

} // verus!
