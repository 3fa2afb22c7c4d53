//! Identifiers of the Trussed backends and extensions that the runner
//! wires, and which backend serves which extension.

use vstd::prelude::*;

verus! {

/// The backends besides the core one.
#[derive(Debug, Clone, Copy, PartialEq, Eq, Structural)]
pub enum BackendIds {
    StagingBackend,
    Auth,
}

/// The extensions, by their wire number.
#[derive(Debug, Clone, Copy, PartialEq, Eq, Structural)]
pub enum ExtensionIds {
    Auth,
    Hkdf,
    Manage,
    WrapKeyToFile,
    FsInfo,
    Hpke,
    Chunked,
}

/// An extension number that names no extension.
#[derive(Debug, Clone, Copy, PartialEq, Eq, Structural)]
pub enum ExtensionError {
    FunctionNotSupported,
}

impl ExtensionIds {
    pub open spec fn spec_id(self) -> u8 {
        match self {
            ExtensionIds::Auth => 0,
            ExtensionIds::Hkdf => 1,
            ExtensionIds::Manage => 2,
            ExtensionIds::WrapKeyToFile => 3,
            ExtensionIds::FsInfo => 4,
            ExtensionIds::Hpke => 5,
            ExtensionIds::Chunked => 6,
        }
    }

    /// The wire number of an extension.
    pub fn id(self) -> (r: u8)
        ensures
            r == self.spec_id(),
    {
        match self {
            ExtensionIds::Auth => 0,
            ExtensionIds::Hkdf => 1,
            ExtensionIds::Manage => 2,
            ExtensionIds::WrapKeyToFile => 3,
            ExtensionIds::FsInfo => 4,
            ExtensionIds::Hpke => 5,
            ExtensionIds::Chunked => 6,
        }
    }

    /// The extension of a wire number; numbers above 6 are not supported.
    pub fn try_from(id: u8) -> (r: Result<ExtensionIds, ExtensionError>)
        ensures
            id <= 6 ==> (r matches Ok(e) && e.spec_id() == id),
            id > 6 ==> r == Err::<ExtensionIds, ExtensionError>(ExtensionError::FunctionNotSupported),
    {
        match id {
            0 => Ok(ExtensionIds::Auth),
            1 => Ok(ExtensionIds::Hkdf),
            2 => Ok(ExtensionIds::Manage),
            3 => Ok(ExtensionIds::WrapKeyToFile),
            4 => Ok(ExtensionIds::FsInfo),
            5 => Ok(ExtensionIds::Hpke),
            6 => Ok(ExtensionIds::Chunked),
            _ => Err(ExtensionError::FunctionNotSupported),
        }
    }

    /// The backend that serves an extension: the auth backend serves the
    /// auth extension, the staging backend all the others.
    pub open spec fn spec_backend(self) -> BackendIds {
        match self {
            ExtensionIds::Auth => BackendIds::Auth,
            _ => BackendIds::StagingBackend,
        }
    }

    pub fn backend(self) -> (r: BackendIds)
        ensures
            r == self.spec_backend(),
    {
        match self {
            ExtensionIds::Auth => BackendIds::Auth,
            _ => BackendIds::StagingBackend,
        }
    }
}

/// The wire numbers of the extensions.
pub proof fn lemma_extension_numbers(x: ExtensionIds)
    ensures
        (x == ExtensionIds::Auth) <==> x.spec_id() == 0,
        (x == ExtensionIds::Hkdf) <==> x.spec_id() == 1,
        (x == ExtensionIds::Manage) <==> x.spec_id() == 2,
        (x == ExtensionIds::WrapKeyToFile) <==> x.spec_id() == 3,
        (x == ExtensionIds::FsInfo) <==> x.spec_id() == 4,
        (x == ExtensionIds::Hpke) <==> x.spec_id() == 5,
        (x == ExtensionIds::Chunked) <==> x.spec_id() == 6,
{
}

/// Only the auth extension goes to the auth backend; every other extension
/// goes to the staging backend.
pub proof fn lemma_backend_choice(x: ExtensionIds)
    ensures
        (x.spec_backend() == BackendIds::Auth) <==> x == ExtensionIds::Auth,
        (x.spec_backend() == BackendIds::StagingBackend) <==> x != ExtensionIds::Auth,
{
}

/// Decoding a wire number gives back the extension it came from.
pub proof fn lemma_extension_id_roundtrip(e: ExtensionIds, f: ExtensionIds)
    ensures
        e.spec_id() == f.spec_id() ==> e == f,
        e.spec_id() <= 6,
{
}

} // verus!
