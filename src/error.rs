use vstd::prelude::*;
use crate::uniform::UniformType;

verus! {

/// Every way in which loading, compiling, linking or using a program can fail.
#[derive(Debug, Clone)]
pub enum Error {
    /// The resource loader could not produce the source of `name`.
    ResourceLoad { name: String, inner: String },
    /// `name` ends in none of the recognised stage suffixes.
    CanNotDetermineShaderTypeForResource { name: String },
    /// The driver rejected the source of `name`; `message` is its log.
    CompileError { name: String, message: String },
    /// The driver could not link program `name`; `message` is its log.
    LinkError { name: String, message: String },
    /// No active uniform of the program is called `name`.
    UnknownUniform { name: String },
    /// Uniform `name` was declared with type `declared`, not `given`.
    UniformTypeMismatch { name: String, declared: UniformType, given: UniformType },
}

impl Error {
    pub open spec fn is_resource_load(self, n: Seq<char>, i: Seq<char>) -> bool {
        match self {
            Error::ResourceLoad { name, inner } => name@ == n && inner@ == i,
            _ => false,
        }
    }

    pub open spec fn is_unknown_stage(self, n: Seq<char>) -> bool {
        match self {
            Error::CanNotDetermineShaderTypeForResource { name } => name@ == n,
            _ => false,
        }
    }

    pub open spec fn is_compile_error(self, n: Seq<char>, m: Seq<char>) -> bool {
        match self {
            Error::CompileError { name, message } => name@ == n && message@ == m,
            _ => false,
        }
    }

    pub open spec fn is_link_error(self, n: Seq<char>, m: Seq<char>) -> bool {
        match self {
            Error::LinkError { name, message } => name@ == n && message@ == m,
            _ => false,
        }
    }

    pub open spec fn is_unknown_uniform(self, n: Seq<char>) -> bool {
        match self {
            Error::UnknownUniform { name } => name@ == n,
            _ => false,
        }
    }

    pub open spec fn is_type_mismatch(self, n: Seq<char>, d: UniformType, g: UniformType) -> bool {
        match self {
            Error::UniformTypeMismatch { name, declared, given } => name@ == n && declared == d
                && given == g,
            _ => false,
        }
    }

    /// The error for a resource that the loader failed to provide.
    pub fn resource_load(name: &str, inner: String) -> (r: Error)
        ensures
            r.is_resource_load(name@, inner@),
    {
        Error::ResourceLoad { name: name.to_owned(), inner }
    }
}

} // verus!
