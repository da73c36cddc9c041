use vstd::prelude::*;

verus! {

/// Why a cell could not be built.
#[derive(Clone, Debug, PartialEq, Eq)]
pub enum PsoCellError {
    /// No vertex shader was configured.
    MissingVertexShader,
    /// No fragment shader was configured.
    MissingFragmentShader,
    /// A configured shader path names no file.
    MissingFile(String),
    /// A resource could not be found or read; the message says which and why.
    Io(String),
    /// A directory could not be registered with the watch service.
    Watch(String),
    /// The pipeline compiler rejected the sources.
    Build(String),
}

} // verus!
