//! Allocation routing: which allocation semantics a request of a given size
//! is served with.

use vstd::prelude::*;

verus! {

/// The allocation policy that a request asks for.
#[derive(Clone, Copy, Debug, PartialEq, Eq, Structural)]
pub enum AllocationSemantics {
    /// No specific requirement; the plan in use decides.
    Default,
    /// Objects that are never reclaimed.
    Immortal,
    /// Large objects, allocated with page granularity and never moved.
    Los,
    /// Objects that hold executable code.
    Code,
    /// Objects that are not written after initialisation.
    ReadOnly,
    /// Large objects that hold executable code.
    LargeCode,
    /// Objects that the collector does not move.
    NonMoving,
}

/// The semantics that a request of `size` bytes is served with under a plan
/// whose default allocator takes objects below `threshold` bytes: objects of
/// `threshold` bytes and more always go to the large object space, whatever
/// was asked for.
pub open spec fn resolved_semantics(
    size: usize,
    threshold: usize,
    requested: AllocationSemantics,
) -> AllocationSemantics {
    if size >= threshold {
        AllocationSemantics::Los
    } else {
        requested
    }
}

/// `n` is 1, 2, 4, 8, ...
pub open spec fn is_power_of_two(n: nat) -> bool
    decreases n,
{
    n == 1 || (n > 1 && n % 2 == 0 && is_power_of_two(n / 2))
}

/// What the allocator is asked for once a request has been routed.
#[derive(Clone, Copy, Debug, PartialEq, Eq, Structural)]
pub struct AllocationRequest {
    /// Number of bytes.
    pub size: usize,
    /// Required alignment, a power of two.
    pub align: usize,
    /// Offset of the aligned position from the start of the allocation.
    pub offset: usize,
    /// The semantics to allocate with, after routing.
    pub semantics: AllocationSemantics,
}

impl AllocationRequest {
    /// A request that the allocator can be asked: for at least one byte,
    /// aligned to a power of two.
    pub open spec fn well_formed(self) -> bool {
        self.size > 0 && is_power_of_two(self.align as nat)
    }

    /// Whether the allocator can be asked this request.
    pub fn is_well_formed(&self) -> (ok: bool)
        ensures
            ok == self.well_formed(),
    {
        self.size > 0 && valid_alignment(self.align)
    }
}

/// An address answers `request` when it is not null and the position
/// `offset` bytes past it is aligned to `align`.
pub open spec fn answers(request: AllocationRequest, address: usize) -> bool {
    address != 0 && (address + request.offset) % (request.align as int) == 0
}

/// Routes a request by its size.
pub fn classify(size: usize, threshold: usize, requested: AllocationSemantics) -> (s:
    AllocationSemantics)
    ensures
        s == resolved_semantics(size, threshold, requested),
{
    if size >= threshold {
        AllocationSemantics::Los
    } else {
        requested
    }
}

/// Whether `align` is a power of two.
pub fn valid_alignment(align: usize) -> (ok: bool)
    ensures
        ok == is_power_of_two(align as nat),
{
    if align == 0 {
        return false;
    }
    let mut rest: usize = align;
    while rest % 2 == 0
        invariant
            rest > 0,
            is_power_of_two(rest as nat) == is_power_of_two(align as nat),
        decreases rest,
    {
        rest = rest / 2;
    }
    rest == 1
}

/// Prepares an allocation of `size` bytes: the request as the allocator is to
/// receive it, with the semantics routed by size against the plan's
/// `threshold`, the smallest size that its default allocator does not take.
/// The allocator can be asked the request where it is well formed.
pub fn mmtk_alloc(
    threshold: usize,
    size: usize,
    align: usize,
    offset: usize,
    semantics: AllocationSemantics,
) -> (request: AllocationRequest)
    ensures
        request == (AllocationRequest {
            size,
            align,
            offset,
            semantics: resolved_semantics(size, threshold, semantics),
        }),
{
    AllocationRequest { size, align, offset, semantics: classify(size, threshold, semantics) }
}

/// The semantics under which the metadata of a freshly allocated object of
/// `bytes` bytes is initialised: routed from the size again, by the rule that
/// routed the allocation.
pub fn mmtk_post_alloc(threshold: usize, bytes: usize, semantics: AllocationSemantics) -> (s:
    AllocationSemantics)
    ensures
        s == resolved_semantics(bytes, threshold, semantics),
{
    classify(bytes, threshold, semantics)
}

/// Whether `address` answers `request`.
pub fn check_allocation(request: &AllocationRequest, address: usize) -> (ok: bool)
    requires
        request.align > 0,
    ensures
        ok == answers(*request, address),
{
    let start: u128 = address as u128;
    let shift: u128 = request.offset as u128;
    let unit: u128 = request.align as u128;
    address != 0 && (start + shift) % unit == 0
}

/// An object never moves exactly when its space does not move objects.
pub fn mmtk_will_never_move(movable: bool) -> (never: bool)
    ensures
        never == !movable,
{
    !movable
}

/// Objects at or above the threshold are allocated, and have their metadata
/// initialised, with the large object semantics, whatever was requested.
pub proof fn lemma_large_objects_go_to_los(
    size: usize,
    threshold: usize,
    requested: AllocationSemantics,
)
    requires
        size >= threshold,
    ensures
        resolved_semantics(size, threshold, requested) == AllocationSemantics::Los,
{
}

/// Objects below the threshold keep the semantics that were requested.
pub proof fn lemma_small_objects_keep_semantics(
    size: usize,
    threshold: usize,
    requested: AllocationSemantics,
)
    requires
        size < threshold,
    ensures
        resolved_semantics(size, threshold, requested) == requested,
{
}

/// Whether the metadata is initialised with the semantics that were
/// requested or with those that the allocation was routed to, it is
/// initialised for the space that the object landed in.
pub proof fn lemma_post_alloc_follows_alloc(
    size: usize,
    threshold: usize,
    requested: AllocationSemantics,
)
    ensures
        resolved_semantics(size, threshold, resolved_semantics(size, threshold, requested))
            == resolved_semantics(size, threshold, requested),
{
}

} // verus!
