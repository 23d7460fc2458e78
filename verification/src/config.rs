use vstd::prelude::*;

verus! {

/// Immutable per-run configuration, captured once when a run is set up and
/// never changed while workers are alive: where the input files live, where
/// converted files go, the external tool to invoke, whether existing output
/// files may be overwritten, and the target format.
#[derive(Debug, Clone)]
pub struct RunConfig {
    pub input_folder: String,
    pub output_folder: String,
    pub program: String,
    pub overwrite: bool,
    pub format: String,
}

} // verus!
