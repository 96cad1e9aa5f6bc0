//! The process-wide allocator registry.
//!
//! The host supplies one pair of allocation functions, at most once; every
//! later registration attempt is ignored, so the first pair stays in effect
//! for the rest of the process lifetime. Strings that cross the boundary are
//! shaped here as zero-terminated byte images, so the host can copy them into
//! memory obtained from its own allocator and free them the same way.

use vstd::prelude::*;
use vstd::string::*;

verus! {

/// One pair of host allocation functions, identified by the addresses the
/// host passed across the boundary.
#[derive(Clone, Copy, PartialEq, Eq, Structural, Debug)]
pub struct AllocatorPair {
    /// Address of the host's allocate-by-size function.
    pub malloc: u64,
    /// Address of the host's free-by-pointer function.
    pub free: u64,
}

/// The allocator registry: unregistered at process start, and thereafter
/// holding the first pair of functions the host offered.
pub struct Allocator {
    /// The registered pair, or `None` while no registration has happened.
    pub pair: Option<AllocatorPair>,
}

impl Allocator {
    /// What one registration attempt does to the registry: the first writer
    /// wins, and every later attempt leaves the registry unchanged.
    pub open spec fn register_step(self, malloc_fn: u64, free_fn: u64) -> Allocator {
        if self.pair is Some {
            self
        } else {
            Allocator { pair: Some(AllocatorPair { malloc: malloc_fn, free: free_fn }) }
        }
    }

    /// A fresh registry, in the unregistered state.
    pub fn new() -> (r: Allocator)
        ensures
            r.pair is None,
    {
        Allocator { pair: None }
    }
}

/// Register the host's allocation functions. Idempotent: only the first call
/// writes the pair, and every later call is a no-op.
pub fn init_memory_allocation(registry: &mut Allocator, malloc_fn: u64, free_fn: u64)
    ensures
        *final(registry) == old(registry).register_step(malloc_fn, free_fn),
        final(registry).pair is Some,
{
    if registry.pair.is_none() {
        registry.pair = Some(AllocatorPair { malloc: malloc_fn, free: free_fn });
    }
}

/// Registering twice, with any two pairs, leaves the first pair in effect:
/// the second attempt changes nothing, and the registry holds the first pair.
pub proof fn lemma_first_registration_wins(r: Allocator, m1: u64, f1: u64, m2: u64, f2: u64)
    requires
        r.pair is None,
    ensures
        r.register_step(m1, f1).register_step(m2, f2) == r.register_step(m1, f1),
        r.register_step(m1, f1).pair == Some(AllocatorPair { malloc: m1, free: f1 }),
{
}

/// The byte image of a cross-boundary string: the text's bytes followed by a
/// single terminating zero byte. `None` when the text itself contains a zero
/// byte, since no zero-terminated image can carry one.
pub fn cstring_image(text: &str) -> (r: Option<Vec<u8>>)
    ensures
        match r {
            Some(image) => {
                &&& image@ == text.spec_bytes().push(0u8)
                &&& forall|i: int| 0 <= i < text.spec_bytes().len() ==> text.spec_bytes()[i] != 0u8
            },
            None => exists|i: int| 0 <= i < text.spec_bytes().len() && text.spec_bytes()[i] == 0u8,
        },
{
    let bytes = text.as_bytes_vec();
    let mut image: Vec<u8> = Vec::new();
    let mut i: usize = 0;
    while i < bytes.len()
        invariant
            i <= bytes.len(),
            bytes@ == text.spec_bytes(),
            image@ == bytes@.subrange(0, i as int),
            forall|j: int| 0 <= j < i ==> bytes@[j] != 0u8,
        decreases bytes.len() - i,
    {
        if bytes[i] == 0 {
            return None;
        }
        image.push(bytes[i]);
        i += 1;
    }
    assert(image@ =~= bytes@);
    image.push(0);
    Some(image)
}

} // verus!
