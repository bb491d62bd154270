//! Ownership tracking for the backing buffers that the managed wrappers
//! hold.  A buffer is either `Owned` (this layer frees it, exactly once) or
//! `Borrowed` (this layer never frees it).  Because the host allocator's
//! `free` is a foreign call, a wrapper that decides a buffer must be freed
//! hands the decision out as a [`FreeRequest`] value; the runtime around the
//! library performs the actual call.

use vstd::prelude::*;

verus! {

/// The backing storage of one managed wrapper: absent, owned by the
/// wrapper, or borrowed from elsewhere.  A buffer is carried as its
/// address in the host address space — an opaque token here, with `0`
/// standing for the null address — and its size in bytes.
#[derive(Debug, Clone, Copy, PartialEq, Eq, Structural)]
pub enum Storage {
    /// No buffer has been supplied yet.
    Empty,
    /// The wrapper owns the buffer and must free it exactly once, at
    /// replacement or at teardown.
    Owned { addr: usize, size: usize },
    /// The buffer belongs to someone else; the wrapper never frees it.
    Borrowed { addr: usize, size: usize },
}

/// An instruction to the surrounding runtime: hand this address back to the
/// host allocator.  Emitting exactly one `FreeRequest` per owned buffer is
/// what makes the layer free of double frees and of leaks.
#[derive(Debug, Clone, Copy, PartialEq, Eq, Structural)]
pub struct FreeRequest {
    pub addr: usize,
}

impl Storage {
    /// The buffer's address; `0` when no buffer is present.
    pub open spec fn spec_addr(self) -> usize {
        match self {
            Storage::Empty => 0,
            Storage::Owned { addr, .. } => addr,
            Storage::Borrowed { addr, .. } => addr,
        }
    }

    /// The buffer's size in bytes; `0` when no buffer is present.
    pub open spec fn spec_size(self) -> usize {
        match self {
            Storage::Empty => 0,
            Storage::Owned { size, .. } => size,
            Storage::Borrowed { size, .. } => size,
        }
    }

    /// Whether replacing or tearing down this storage must free a buffer:
    /// only an owned, non-null buffer is ever freed.
    pub open spec fn must_free(self) -> bool {
        self matches Storage::Owned { addr, .. } && addr != 0
    }

    /// The free that replacing or tearing down this storage triggers.
    pub open spec fn spec_release(self) -> Option<FreeRequest> {
        if self.must_free() {
            Some(FreeRequest { addr: self.spec_addr() })
        } else {
            None
        }
    }

    /// Computes the free that dropping this storage triggers: exactly one
    /// request for an owned, non-null buffer, and none otherwise.
    pub fn release(self) -> (r: Option<FreeRequest>)
        ensures
            r == self.spec_release(),
    {
        match self {
            Storage::Owned { addr, .. } => {
                if addr != 0 {
                    Some(FreeRequest { addr })
                } else {
                    None
                }
            },
            _ => None,
        }
    }
}

/// A borrowed buffer is never freed: neither when the storage that holds it
/// is torn down, nor when it is replaced — whatever buffer replaces it.
pub proof fn lemma_borrowed_never_freed(s: Storage)
    requires
        s is Borrowed,
    ensures
        s.spec_release() is None,
{
}

/// An owned, non-null buffer is freed exactly once: releasing the storage
/// that holds it yields precisely one request, for precisely that buffer —
/// and since replacing or tearing down storage consumes it, no second
/// release of the same storage can occur.
pub proof fn lemma_owned_freed_once(s: Storage)
    requires
        s matches Storage::Owned { addr, .. } && addr != 0,
    ensures
        s.spec_release() == Some(FreeRequest { addr: s.spec_addr() }),
{
}

} // verus!
