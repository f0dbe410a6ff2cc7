//! Process-wide OpenGL entry-point loader.
//!
//! Resolving an OpenGL function by name needs the platform's OpenGL client
//! library to be loaded first. That load is a process-wide, one-time affair;
//! it is modeled here as an explicitly initialized resource rather than
//! hidden global state, so that "initialize before the first resolution" is
//! a checked precondition instead of a convention.

use vstd::prelude::*;

verus! {

/// The platform OpenGL client library could not be located. Fatal: no OpenGL
/// call can proceed without it, so callers must not retry.
#[derive(PartialEq, Eq, Structural, Clone, Copy, Debug)]
pub enum LoaderError {
    Unavailable,
}

/// A symbol name can be handed to the platform loader only if it has no
/// embedded NUL, since the loader takes a C string.
pub open spec fn nul_free(s: Seq<char>) -> bool {
    forall|i: int| 0 <= i < s.len() ==> s[i] != '\0'
}

/// Relies on `gl_loader::init_gl`: loads the platform's OpenGL client
/// library and returns a nonzero status on success, zero when the library
/// cannot be located. Whether it succeeds depends on the machine, so nothing
/// is promised of the status.
#[verifier::external_body]
fn native_init_gl() -> i32 {
    gl_loader::init_gl()
}

/// Relies on `gl_loader::get_proc_address`: asks the loaded OpenGL client
/// library for the address of the named entry point; the address is zero
/// when the symbol is unknown. Which address (if any) comes back depends on
/// the machine's OpenGL installation, so nothing is promised of it. The
/// loader takes the name as a C string, hence the NUL-freedom precondition.
#[verifier::external_body]
fn native_get_proc_address(symbol: &str) -> usize
    requires
        nul_free(symbol@),
{
    gl_loader::get_proc_address(symbol) as usize
}

/// The state of the process-wide loader: whether the OpenGL client library
/// has been loaded successfully.
pub struct ProcAddressResolver {
    /// True once the platform library is loaded and symbols can be resolved.
    pub initialized: bool,
}

impl ProcAddressResolver {
    /// A resolver that has not loaded the platform library yet.
    pub fn new() -> (r: Self)
        ensures
            !r.initialized,
    {
        ProcAddressResolver { initialized: false }
    }

    /// The initialization decision, taken from the native load status: a
    /// resolver that is already initialized stays as it is whatever the
    /// status says (no double load); otherwise a nonzero status initializes
    /// it and a zero status leaves it unusable with a fatal error.
    pub fn apply_init(&mut self, status: i32) -> (r: Result<(), LoaderError>)
        ensures
            old(self).initialized ==> *final(self) == *old(self) && r is Ok,
            r is Ok <==> final(self).initialized,
            !old(self).initialized ==> (final(self).initialized <==> status != 0),
            r is Err ==> *final(self) == *old(self) && r == Err::<(), LoaderError>(LoaderError::Unavailable),
    {
        if self.initialized {
            Ok(())
        } else if status != 0 {
            self.initialized = true;
            Ok(())
        } else {
            Err(LoaderError::Unavailable)
        }
    }

    /// Load the platform OpenGL client library if that has not happened yet.
    /// Idempotent: once a call has succeeded, every later call succeeds
    /// without touching the platform loader again. On failure the resolver
    /// is unchanged and unusable; the error is fatal, not worth retrying.
    pub fn initialize(&mut self) -> (r: Result<(), LoaderError>)
        ensures
            old(self).initialized ==> *final(self) == *old(self) && r is Ok,
            r is Ok <==> final(self).initialized,
            r is Err ==> *final(self) == *old(self) && r == Err::<(), LoaderError>(LoaderError::Unavailable),
    {
        if self.initialized {
            Ok(())
        } else {
            let status = native_init_gl();
            self.apply_init(status)
        }
    }

    /// Resolve an OpenGL entry-point name to its native address, zero when
    /// the symbol is unknown. Pure delegation to the platform loader, which
    /// may only be consulted once the client library is loaded. The address
    /// depends on the machine's OpenGL installation, so no particular value
    /// is promised; the rendering library treats a zero address as
    /// "extension unavailable".
    pub fn resolve(&self, symbol: &str) -> (addr: usize)
        requires
            self.initialized,
            nul_free(symbol@),
    {
        native_get_proc_address(symbol)
    }
}

} // verus!
