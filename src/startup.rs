//! What the program needs before a session starts, and what it shows.

use vstd::prelude::*;

verus! {

/// Why the program cannot start.
#[derive(Clone, Copy, Debug, PartialEq, Eq, Structural)]
pub enum StartupError {
    /// No file to play was named on the command line.
    MissingPath,
}

/// The status that the program exits with when it cannot start.
pub const USAGE_EXIT_CODE: i32 = 1;

/// The one line that tells how to run the program.
pub open spec fn usage_text() -> Seq<char> {
    "Usage: rmus <input>"@
}

impl StartupError {
    /// The message to print on the error stream.
    pub fn message(&self) -> (r: String)
        ensures
            r@ == usage_text(),
    {
        match self {
            StartupError::MissingPath => "Usage: rmus <input>".to_owned(),
        }
    }

    /// The status to exit with.
    pub fn exit_code(&self) -> (r: i32)
        ensures
            r == USAGE_EXIT_CODE,
    {
        USAGE_EXIT_CODE
    }
}

/// The path of the file to play, from the command line as the process got it
/// (the program's own name first). Arguments after the path are ignored.
pub fn input_path(args: &Vec<String>) -> (r: Result<String, StartupError>)
    ensures
        args@.len() >= 2 ==> (r matches Ok(path) && path@ == args@[1]@),
        args@.len() < 2 ==> r == Err::<String, StartupError>(StartupError::MissingPath),
{
    if args.len() < 2 {
        Err(StartupError::MissingPath)
    } else {
        Ok(args[1].clone())
    }
}

/// The title of the panel that shows the file being played.
pub open spec fn panel_title() -> Seq<char> {
    "Song"@
}

/// The content of the screen: one bordered panel with a title and a body.
pub struct Panel {
    pub title: String,
    pub body: String,
}

impl Panel {
    /// The panel for a session that plays the file at `path`: titled "Song",
    /// showing the path as given.
    pub fn for_file(path: &str) -> (r: Panel)
        ensures
            r.title@ == panel_title(),
            r.body@ == path@,
    {
        Panel { title: "Song".to_owned(), body: path.to_owned() }
    }
}

} // verus!
