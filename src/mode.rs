use vstd::prelude::*;

verus! {

/// The two ways the program runs.
#[derive(Debug, Clone, Copy, PartialEq, Eq, Structural)]
pub enum Mode {
    /// Interactive enrollment, which stores a new session.
    Setup,
    /// mailx send mode.
    Send,
}

pub open spec fn mode_of(name: Seq<char>) -> Mode {
    if name == "mail"@ || name == "mailx"@ {
        Mode::Send
    } else {
        Mode::Setup
    }
}

impl Mode {
    /// The mode for the file name the program was invoked by: send mode for
    /// `mail` and `mailx`, setup mode for any other name.
    pub fn from_program_name(name: &str) -> (r: Mode)
        ensures
            r == mode_of(name@),
    {
        let name = String::from_str(name);
        if name == String::from_str("mail") || name == String::from_str("mailx") {
            Mode::Send
        } else {
            Mode::Setup
        }
    }
}

} // verus!
