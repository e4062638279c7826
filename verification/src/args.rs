//! The command-line choices, as plain values: the surrounding program
//! collects them from its argument parser and hands them to the pipeline.

use vstd::prelude::*;
use crate::text::str_eq;

verus! {

/// When to color the rewritten line on output: decide from the terminal,
/// always, or never.
#[derive(Clone, Copy, PartialEq, Eq, Structural, Debug)]
pub enum ColorChoice {
    Auto,
    Always,
    Never,
}

/// Everything the command line selects: the input file (standard input
/// where absent or `-`), an optional custom format, an optional explicit
/// target timezone, whether to follow the input indefinitely, and the
/// color choice.
pub struct Args {
    pub filename: Option<String>,
    pub custom_format: Option<String>,
    pub timezone: Option<String>,
    pub should_follow: bool,
    pub color_choice: ColorChoice,
}

impl ColorChoice {
    /// The choice a command-line value selects: `always` and `never` are
    /// explicit; any other value, or none, decides from the terminal.
    pub fn new(choice: Option<&str>) -> (r: ColorChoice)
        ensures
            r == (match choice {
                Some(c) => if c@ == "always"@ {
                    ColorChoice::Always
                } else if c@ == "never"@ {
                    ColorChoice::Never
                } else {
                    ColorChoice::Auto
                },
                None => ColorChoice::Auto,
            }),
    {
        match choice {
            Some(c) => {
                if str_eq(c, "always") {
                    ColorChoice::Always
                } else if str_eq(c, "never") {
                    ColorChoice::Never
                } else {
                    ColorChoice::Auto
                }
            },
            None => ColorChoice::Auto,
        }
    }
}

} // verus!
