//! What the program remembers from one run to the next.

use vstd::prelude::*;
use vstd::string::*;

verus! {

/// The language that is chosen where nothing else was.
pub const DEFAULT_LANGUAGE: &'static str = "en_GB";

/// The settings of the program.
#[derive(Debug)]
pub struct Config {
    /// The identifier of the language of the window.
    pub language: String,
}

impl Default for Config {
    /// The settings of a first run.
    fn default() -> (r: Self)
        ensures
            r.language@ == DEFAULT_LANGUAGE@,
    {
        Config { language: String::from_str(DEFAULT_LANGUAGE) }
    }
}

} // verus!
