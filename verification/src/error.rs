//! The error type shared by every fallible operation of the crate.

use crate::backend::{api_name, Api};
use crate::text::{decimal, push_decimal};
use vstd::prelude::*;

verus! {

/// gfx's `buffer::CreationError`: why a buffer could not be created. It is
/// carried as it comes; nothing is claimed of what it holds.
#[verifier::external_type_specification]
#[verifier::external_body]
pub struct ExBufferCreationError(gfx::buffer::CreationError);

/// How a device resource is meant to be accessed.
#[derive(Clone, Copy, Debug, PartialEq, Eq, Structural)]
pub enum MemoryUsage {
    /// Full-speed access by the GPU.
    Data,
    /// Written by the CPU through update commands.
    Dynamic,
    /// Staging memory for uploads.
    Upload,
    /// Staging memory for downloads.
    Download,
}

/// Why the device refused to allocate a buffer, texture or sampler.
#[derive(Clone, Copy, Debug, PartialEq, Eq, Structural)]
pub enum ResourceFailure {
    /// Some of the requested bind flags are not supported; the flags as bits.
    UnsupportedBind(u8),
    /// The requested usage is not supported.
    UnsupportedUsage(MemoryUsage),
    /// The device gave no reason.
    Unknown,
}

/// Everything that can go wrong in this crate. Every variant is recoverable:
/// no operation aborts the process.
#[derive(Clone, Debug, PartialEq, Eq)]
pub enum GameError {
    /// A buffer, texture or sampler could not be allocated.
    ResourceCreationError(ResourceFailure),
    /// The window, context or device could not be created.
    BackendInitError(String),
    /// A file could not be read.
    IOError(String),
    /// The GPU or its driver failed; the text is the driver's diagnostic.
    RenderError(String),
    /// The requested API has no shader profile.
    UnsupportedApi(Api),
    /// A pop would have removed the last entry of the transform stack.
    TransformStackUnderflow,
    /// An entry of a computed matrix does not fit in 32 bits.
    MatrixOverflow,
}

/// The result of a fallible operation.
pub type GameResult<T = ()> = Result<T, GameError>;

/// The name of a usage.
pub open spec fn usage_name(u: MemoryUsage) -> Seq<char> {
    match u {
        MemoryUsage::Data => "Data"@,
        MemoryUsage::Dynamic => "Dynamic"@,
        MemoryUsage::Upload => "Upload"@,
        MemoryUsage::Download => "Download"@,
    }
}

/// The message that an error shows to the user.
pub open spec fn error_text(e: GameError) -> Seq<char> {
    match e {
        GameError::ResourceCreationError(ResourceFailure::UnsupportedBind(bits)) => {
            "Could not create resource: Unsupported Bind ("@ + decimal(bits as int) + ")"@
        },
        GameError::ResourceCreationError(ResourceFailure::UnsupportedUsage(u)) => {
            "Could not create resource: Unsupported Usage ("@ + usage_name(u) + ")"@
        },
        GameError::ResourceCreationError(ResourceFailure::Unknown) => {
            "Could not create resource: Unknown error"@
        },
        GameError::BackendInitError(s) => "Could not initialize the backend: "@ + s@,
        GameError::IOError(s) => "I/O error: "@ + s@,
        GameError::RenderError(s) => "Render error: "@ + s@,
        GameError::UnsupportedApi(api) => "Unsupported API: "@ + api_name(api),
        GameError::TransformStackUnderflow => {
            "Cannot pop the last entry of the transform stack"@
        },
        GameError::MatrixOverflow => "A matrix entry does not fit in 32 bits"@,
    }
}

impl MemoryUsage {
    /// The name of the usage.
    pub fn name(&self) -> (s: &'static str)
        ensures
            s@ == usage_name(*self),
    {
        match self {
            MemoryUsage::Data => "Data",
            MemoryUsage::Dynamic => "Dynamic",
            MemoryUsage::Upload => "Upload",
            MemoryUsage::Download => "Download",
        }
    }
}

/// Reads the reason out of gfx's `buffer::CreationError`, one variant to one
/// variant; bind flags are handed on as their bits (`Bind::bits`). The
/// contract claims that the reason depends on the error alone: it is
/// `reason_of` of that error. Which reason an error holds is not claimed.
#[verifier::external_body]
fn buffer_failure(e: gfx::buffer::CreationError) -> (f: ResourceFailure)
    ensures
        f == reason_of(e),
{
    match e {
        gfx::buffer::CreationError::UnsupportedBind(b) => ResourceFailure::UnsupportedBind(b.bits()),
        gfx::buffer::CreationError::Other => ResourceFailure::Unknown,
        gfx::buffer::CreationError::UnsupportedUsage(u) => ResourceFailure::UnsupportedUsage(
            match u {
                gfx::memory::Usage::Data => MemoryUsage::Data,
                gfx::memory::Usage::Dynamic => MemoryUsage::Dynamic,
                gfx::memory::Usage::Upload => MemoryUsage::Upload,
                gfx::memory::Usage::Download => MemoryUsage::Download,
            },
        ),
    }
}

impl GameError {
    /// The message that the error shows to the user.
    pub fn message(&self) -> (text: String)
        ensures
            text@ == error_text(*self),
    {
        match self {
            GameError::ResourceCreationError(ResourceFailure::UnsupportedBind(bits)) => {
                let mut text = String::from_str("Could not create resource: Unsupported Bind (");
                push_decimal(&mut text, *bits as i64);
                text.append(")");
                text
            },
            GameError::ResourceCreationError(ResourceFailure::UnsupportedUsage(u)) => {
                let mut text = String::from_str("Could not create resource: Unsupported Usage (");
                text.append(u.name());
                text.append(")");
                text
            },
            GameError::ResourceCreationError(ResourceFailure::Unknown) => {
                String::from_str("Could not create resource: Unknown error")
            },
            GameError::BackendInitError(s) => {
                let mut text = String::from_str("Could not initialize the backend: ");
                text.append(s.as_str());
                text
            },
            GameError::IOError(s) => {
                let mut text = String::from_str("I/O error: ");
                text.append(s.as_str());
                text
            },
            GameError::RenderError(s) => {
                let mut text = String::from_str("Render error: ");
                text.append(s.as_str());
                text
            },
            GameError::UnsupportedApi(api) => {
                let mut text = String::from_str("Unsupported API: ");
                text.append(api.name());
                text
            },
            GameError::TransformStackUnderflow => {
                String::from_str("Cannot pop the last entry of the transform stack")
            },
            GameError::MatrixOverflow => String::from_str("A matrix entry does not fit in 32 bits"),
        }
    }

    /// The error for a refused allocation.
    pub fn from_failure(f: ResourceFailure) -> (e: GameError)
        ensures
            e == GameError::ResourceCreationError(f),
    {
        GameError::ResourceCreationError(f)
    }

    /// The error for a buffer that the device refused to create: a
    /// resource-creation error with the reason that gfx's error holds.
    pub fn from_buffer_error(e: gfx::buffer::CreationError) -> (r: GameError)
        ensures
            r == GameError::ResourceCreationError(reason_of(e)),
    {
        GameError::from_failure(buffer_failure(e))
    }
}

/// The reason that a `buffer::CreationError` of gfx holds: unsupported bind
/// flags with their bits, an unsupported usage, or none that is known.
pub uninterp spec fn reason_of(e: gfx::buffer::CreationError) -> ResourceFailure;

} // verus!
