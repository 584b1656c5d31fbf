use vstd::prelude::*;
use crate::backend::check_if_exists;
use crate::backend::exists_of;
use crate::backend::BackendReply;
use crate::error::TransferError;

verus! {

/// How many candidates one allocation probes before it gives up.
pub const MAX_PROBES: u32 = 1_000_000;

/// Whether `c` is one of `0-9`, `a-f`.
pub open spec fn is_lower_hex_digit(c: char) -> bool {
    ('0' <= c && c <= '9') || ('a' <= c && c <= 'f')
}

/// The canonical text of a 128-bit identifier: 36 characters, hyphens after
/// the 8th, 12th, 16th and 20th digit, lower-case hexadecimal digits
/// elsewhere.
pub open spec fn is_canonical_identifier(text: Seq<char>) -> bool {
    text.len() == 36 && forall|i: int|
        0 <= i < 36 ==> if i == 8 || i == 13 || i == 18 || i == 23 {
            #[trigger] text[i] == '-'
        } else {
            is_lower_hex_digit(text[i])
        }
}

/// `Uuid::new_v4` rendered by `to_string`: a random identifier in its
/// hyphenated lower-case form. Which one is left open.
#[verifier::external_body]
fn random_identifier() -> (id: String)
    ensures
        is_canonical_identifier(id@),
{
    uuid::Uuid::new_v4().to_string()
}

/// An allocation under way: the candidate that is to be probed next, and how
/// many candidates were found in use so far.
pub struct Allocator {
    candidate: String,
    collisions: u32,
}

/// Where an allocation stands after a probe.
pub enum Allocation {
    /// The candidate was in use; probe the next one.
    Probe(Allocator),
    /// The candidate was free: it is the identifier.
    Allocated(String),
    /// The allocation ended without an identifier.
    Failed(TransferError),
}

/// Starts an allocation with a fresh random candidate. The caller probes the
/// object store for the candidate and reports the reply with `on_probe`.
pub fn generate_uuid() -> (allocator: Allocator)
    ensures
        allocator.collisions() == 0,
        is_canonical_identifier(allocator.candidate()),
{
    Allocator { candidate: random_identifier(), collisions: 0 }
}

impl Allocator {
    #[verifier::type_invariant]
    spec fn well_formed(&self) -> bool {
        self.collisions < MAX_PROBES && is_canonical_identifier(self.candidate@)
    }

    /// The candidate to probe.
    pub closed spec fn candidate(&self) -> Seq<char> {
        self.candidate@
    }

    /// How many candidates were found in use.
    pub closed spec fn collisions(&self) -> nat {
        self.collisions as nat
    }

    /// The candidate to probe.
    pub fn candidate_id(&self) -> (id: &String)
        ensures
            id@ == self.candidate(),
            is_canonical_identifier(id@),
    {
        proof {
            use_type_invariant(self);
        }
        &self.candidate
    }

    /// How many candidates were found in use.
    pub fn collision_count(&self) -> (count: u32)
        ensures
            count == self.collisions(),
            count < MAX_PROBES,
    {
        proof {
            use_type_invariant(self);
        }
        self.collisions
    }

    /// Takes the reply to the probe for the candidate. The candidate becomes
    /// the identifier only if the reply says that no object has it; if one
    /// has, another candidate is drawn, until `MAX_PROBES` were in use. A
    /// probe without an answer ends the allocation.
    pub fn on_probe(self, reply: &BackendReply) -> (next: Allocation)
        ensures
            match exists_of(*reply) {
                Err(reason) => next == Allocation::Failed(reason),
                Ok(false) => next is Allocated && next->Allocated_0@ == self.candidate(),
                Ok(true) => if self.collisions() + 1 == MAX_PROBES {
                    next == Allocation::Failed(TransferError::AllocationExhausted)
                } else {
                    next is Probe && next->Probe_0.collisions() == self.collisions() + 1
                        && is_canonical_identifier(next->Probe_0.candidate())
                },
            },
    {
        proof {
            use_type_invariant(&self);
        }
        match check_if_exists(reply) {
            Err(reason) => Allocation::Failed(reason),
            Ok(false) => Allocation::Allocated(self.candidate),
            Ok(true) => {
                if self.collisions + 1 == MAX_PROBES {
                    Allocation::Failed(TransferError::AllocationExhausted)
                } else {
                    Allocation::Probe(
                        Allocator {
                            candidate: random_identifier(),
                            collisions: self.collisions + 1,
                        },
                    )
                }
            },
        }
    }
}

} // verus!
