use vstd::prelude::*;

verus! {

/// The denoising algorithm that the user picks.
#[derive(Clone, Copy, Debug, PartialEq, Eq, Structural)]
pub enum Strategy {
    Default,
    Experimental,
    ATrous,
}

/// The command line as the library reads it. Paths are held as UTF-8 strings.
#[derive(Debug)]
pub struct Args {
    /// Input image path.
    pub input: String,
    /// Output image path; when absent a name is derived from the input.
    pub output: Option<String>,
    /// Denoise strength, 1 (mild) to 5 (strong).
    pub strength: u8,
    /// Sharpening strength, when sharpening was asked for.
    pub sharpen: Option<u8>,
    /// The denoising algorithm.
    pub strategy: Strategy,
}

impl Args {
    /// Whether the experimental, astrophotography-oriented denoiser was chosen.
    pub fn experimental(&self) -> (r: bool)
        ensures
            r == (self.strategy == Strategy::Experimental),
    {
        self.strategy == Strategy::Experimental
    }
}

} // verus!
