//! The errors that the library itself detects.

use vstd::prelude::*;
use vstd::string::*;

verus! {

/// Why an operation was refused.
#[derive(Debug, PartialEq, Eq)]
pub enum Error {
    /// A copy was asked of a render target that lacks a texture it needs.
    FailedToCopyFromRenderTarget { message: String },
    /// No framebuffer could be had for a render target.
    FailedToCreateFramebuffer { message: String },
    /// A mesh lacks a vertex attribute that the shader program reads.
    FailedToCreateMesh { message: String },
}

/// An error with its message as a sequence of characters.
pub enum ErrorView {
    FailedToCopyFromRenderTarget { message: Seq<char> },
    FailedToCreateFramebuffer { message: Seq<char> },
    FailedToCreateMesh { message: Seq<char> },
}

impl View for Error {
    type V = ErrorView;

    open spec fn view(&self) -> ErrorView {
        match *self {
            Error::FailedToCopyFromRenderTarget { message } => {
                ErrorView::FailedToCopyFromRenderTarget { message: message@ }
            },
            Error::FailedToCreateFramebuffer { message } => {
                ErrorView::FailedToCreateFramebuffer { message: message@ }
            },
            Error::FailedToCreateMesh { message } => {
                ErrorView::FailedToCreateMesh { message: message@ }
            },
        }
    }
}

impl Error {
    /// The text that comes with the error.
    pub fn message(&self) -> (text: &str)
        ensures
            text@ == match self@ {
                ErrorView::FailedToCopyFromRenderTarget { message } => message,
                ErrorView::FailedToCreateFramebuffer { message } => message,
                ErrorView::FailedToCreateMesh { message } => message,
            },
    {
        match self {
            Error::FailedToCopyFromRenderTarget { message } => message.as_str(),
            Error::FailedToCreateFramebuffer { message } => message.as_str(),
            Error::FailedToCreateMesh { message } => message.as_str(),
        }
    }
}

} // verus!
