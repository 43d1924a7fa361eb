//! The structured input of one adapter call.

use vstd::prelude::*;

verus! {

/// One request to invoke the external `bridge-cli` tool.
///
/// The caller supplies every field; the adapter validates nothing about
/// `input` or `config_path` beyond passing each as a single discrete
/// argument element.
pub struct InvocationRequest {
    /// Path or identifier handed to the tool after the `-i` flag, verbatim.
    pub input: String,
    /// When true, the tool is asked for a dry run (`--dry-run`).
    pub dry_run: bool,
    /// When true, the tool is asked not to send mail (`--no-email`).
    pub no_email: bool,
    /// Optional configuration path, handed to the tool after `--config`.
    pub config_path: Option<String>,
}

impl InvocationRequest {
    /// The mathematical content of the optional configuration path.
    pub open spec fn config_view(&self) -> Option<Seq<char>> {
        match self.config_path {
            Option::Some(c) => Option::Some(c@),
            Option::None => Option::None,
        }
    }
}

} // verus!
