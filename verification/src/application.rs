use vstd::prelude::*;

use crate::text::str_eq;

verus! {

/// What the command line asks of the application at launch.
#[derive(Debug, Clone, PartialEq, Eq)]
pub struct LaunchOptions {
    /// Whether to capture a screenshot before showing the window.
    pub start_with_capture: bool,
    /// The arguments, all of them and in order, handed on to the toolkit.
    pub passthrough_args: Vec<String>,
}

/// Some argument is exactly `--capture`.
pub open spec fn asks_for_capture(args: Seq<String>) -> bool {
    exists|i: int| 0 <= i < args.len() && (#[trigger] args[i])@ == "--capture"@
}

impl LaunchOptions {
    /// Reads the launch arguments: capture first when any argument is
    /// `--capture`; every argument is passed on unchanged.
    pub fn parse(args: Vec<String>) -> (r: Self)
        ensures
            r.start_with_capture == asks_for_capture(args@),
            r.passthrough_args == args,
    {
        let mut start_with_capture = false;
        let mut i: usize = 0;
        while i < args.len()
            invariant
                i <= args@.len(),
                start_with_capture == exists|j: int| 0 <= j < i && (#[trigger] args@[j])@ == "--capture"@,
            decreases args.len() - i,
        {
            if str_eq(args[i].as_str(), "--capture") {
                start_with_capture = true;
            }
            i = i + 1;
        }
        LaunchOptions { start_with_capture, passthrough_args: args }
    }
}

} // verus!
