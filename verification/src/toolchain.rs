//! The version of the compiler, from the description of a toolchain.

use vstd::prelude::*;
use vstd::string::StringExecFns;

verus! {

/// What a toolchain file holds.
#[derive(Debug)]
pub struct RustToolchain {
    pub toolchain: Toolchain,
}

/// A toolchain: its channel and its components.
#[derive(Debug)]
pub struct Toolchain {
    pub channel: String,
    pub components: Vec<String>,
}

/// The version argument for the channel `channel`: `+channel`, as a string
/// literal.
pub open spec fn version_literal(channel: Seq<char>) -> Seq<char> {
    "\"+"@ + channel + "\""@
}

/// The string literal that selects the compiler of the toolchain: for the
/// channel `nightly-2022-01-29` it is `"+nightly-2022-01-29"`, with the
/// quotes.
pub fn rust_version(toolchain: &RustToolchain) -> (out: String)
    ensures
        out@ == version_literal(toolchain.toolchain.channel@),
{
    let mut out = String::from_str("\"+");
    out.append(toolchain.toolchain.channel.as_str());
    out.append("\"");
    out
}

} // verus!
