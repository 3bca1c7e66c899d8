//! The plain record of command line options. Parsing the command line itself
//! happens outside this crate; the values arrive here as plain fields.

use vstd::prelude::*;

verus! {

/// Options for one run: a single input URL, flags for audio-only extraction,
/// the target audio format, an output override, verbosity, temp-file
/// retention, the web-driver port and a resolver-instance override.
pub struct Args {
    pub onlyaudio: bool,
    pub keeptempfile: bool,
    pub verbose: bool,
    pub audioformat: String,
    pub outputfile: Option<String>,
    pub webdriver: Option<u16>,
    pub url: String,
    pub invidious_instance: Option<String>,
}

impl Args {
    /// The configured web-driver port; 0 means "none supplied".
    pub fn parse_webdriver(&self) -> (r: u16)
        ensures
            r == (match self.webdriver {
                Some(p) => p,
                None => 0u16,
            }),
    {
        match self.webdriver {
            Some(p) => p,
            None => 0,
        }
    }
}

} // verus!
