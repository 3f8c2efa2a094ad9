//! The launcher shim: a small platform-appropriate script that forwards all
//! arguments to the backend's command-line entry point through the
//! provisioned interpreter. Regenerated on every startup; the driver writes
//! it under `bin` in the data directory and, where the platform has an
//! executable-permission model, marks it owner-executable.

use vstd::prelude::*;

use crate::paths::{join_seq, join_path};

verus! {

/// File name of the shim under the data directory's `bin` subdirectory.
pub open spec fn shim_rel_path_seq(windows: bool) -> Seq<char> {
    if windows {
        join_seq("bin"@, "suzent.cmd"@)
    } else {
        join_seq("bin"@, "suzent"@)
    }
}

/// Relative path of the shim under the application data directory.
pub fn shim_rel_path(windows: bool) -> (r: String)
    ensures
        r@ == shim_rel_path_seq(windows),
{
    if windows {
        join_path("bin", "suzent.cmd")
    } else {
        join_path("bin", "suzent")
    }
}

/// The full script text: a batch file on Windows, a POSIX shell script
/// elsewhere, each invoking the interpreter's command-line entry module and
/// passing every argument through.
pub open spec fn shim_script_seq(python_exe: Seq<char>, windows: bool) -> Seq<char> {
    if windows {
        "@echo off\r\n\""@ + python_exe + "\" -m suzent.cli %*"@
    } else {
        "#!/bin/sh\nexec \""@ + python_exe + "\" -m suzent.cli \"$@\""@
    }
}

/// Generate the shim's content for the given interpreter path.
pub fn shim_script(python_exe: &str, windows: bool) -> (r: String)
    ensures
        r@ == shim_script_seq(python_exe@, windows),
{
    if windows {
        let mut out = "@echo off\r\n\"".to_owned();
        out.append(python_exe);
        out.append("\" -m suzent.cli %*");
        out
    } else {
        let mut out = "#!/bin/sh\nexec \"".to_owned();
        out.append(python_exe);
        out.append("\" -m suzent.cli \"$@\"");
        out
    }
}

/// Whether the generated shim must carry the owner-executable bit.
pub fn shim_needs_exec_bit(windows: bool) -> (r: bool)
    ensures
        r == !windows,
{
    !windows
}

} // verus!
