//! Where a runtime thread's stack starts, and how big it is.
//!
//! A stack overflow aborts the process; it does not unwind, and it does not
//! say what was on the stack. The only way to see one coming is to measure how
//! deep the work actually goes, and that needs a fixed point to measure from.
//!
//! Every thread that a runtime starts keeps a [`WorkerStack`] and marks it in
//! its entry frame with [`mark_base`]. The distance from there to the address
//! of a local at some depth, which [`here`] gives, is the number of bytes of
//! stack in use between the two: [`used_here`].

use vstd::prelude::*;

verus! {

/// What one thread knows of its own stack.
#[derive(Debug, Clone, Copy, PartialEq, Eq, Structural)]
pub struct WorkerStack {
    base: usize,
    size: usize,
}

impl WorkerStack {
    /// The address recorded as the base, or 0 when none is.
    pub closed spec fn base_address(&self) -> usize {
        self.base
    }

    /// The stack size recorded, or 0 when it is unknown.
    pub closed spec fn byte_size(&self) -> usize {
        self.size
    }

    /// Whether a base has been recorded.
    pub open spec fn is_marked(&self) -> bool {
        self.base_address() != 0
    }

    /// The stack of a thread that no runtime started: no base, no size.
    pub fn unmarked() -> (r: WorkerStack)
        ensures
            r.base_address() == 0,
            r.byte_size() == 0,
    {
        WorkerStack { base: 0, size: 0 }
    }

    /// The stack of a thread whose entry frame has a local at `address`, and
    /// that was given `size` bytes of stack.
    pub fn based_at(address: usize, size: usize) -> (r: WorkerStack)
        ensures
            r.base_address() == address,
            r.byte_size() == size,
    {
        WorkerStack { base: address, size }
    }
}

/// Bytes between a base and the frame that has a local at `here`, in a stack
/// that grows down. `None` when no base is recorded; zero when `here` lies at
/// or above the base.
pub open spec fn depth_below(base: usize, here: usize) -> Option<usize> {
    if base == 0 {
        None
    } else if here >= base {
        Some(0)
    } else {
        Some((base - here) as usize)
    }
}

/// Calls `std::ptr::from_ref` on `anchor`, and takes the pointer as a number.
///
/// Claims only that the address of a reference is not null. Which address it
/// is depends on where the machine put the local, so nothing more is said.
#[inline(always)]
#[verifier::external_body]
fn address_of(anchor: &u8) -> (r: usize)
    ensures
        r != 0,
{
    std::ptr::from_ref(anchor) as usize
}

/// Whether `address` can be that of a local.
pub closed spec fn is_local_address(address: usize) -> bool {
    exists|anchor: u8| call_ensures(address_of, (&anchor,), address)
}

/// Records the current frame as the base of `stack`.
///
/// Called once per runtime thread, as the first thing that thread does.
/// Calling it again from a deeper frame would move the base and under-report
/// every later measurement. `size` is the stack the thread was given, or 0
/// when the caller does not know.
///
/// Inlined, so that the anchor lands in the caller's frame: in a callee's it
/// would lie below the caller's own locals.
#[inline(always)]
pub fn mark_base(stack: &mut WorkerStack, size: usize)
    ensures
        final(stack).is_marked(),
        is_local_address(final(stack).base_address()),
        final(stack).byte_size() == size,
{
    let anchor: u8 = 0;
    *stack = WorkerStack::based_at(address_of(&anchor), size);
}

/// The address of a local in the thread's entry frame, or 0 when the thread
/// was not started by a runtime.
#[inline]
pub fn base(stack: &WorkerStack) -> (r: usize)
    ensures
        r == stack.base_address(),
{
    stack.base
}

/// The stack size, in bytes, that the thread was given, or 0 when the thread
/// was not started by a runtime.
#[inline]
pub fn size(stack: &WorkerStack) -> (r: usize)
    ensures
        r == stack.byte_size(),
{
    stack.size
}

/// The address of a local in the calling frame.
///
/// Never inlined: an inlined probe measures the frame it was folded into
/// rather than the frame that called it.
#[inline(never)]
pub fn here() -> (r: usize)
    ensures
        r != 0,
        is_local_address(r),
{
    let anchor: u8 = 0;
    address_of(&anchor)
}

/// Bytes of stack in use between the base of `stack` and `here`.
///
/// `None` only when the thread has no recorded base. A probe taken in a frame
/// beside the one that recorded the base can land a little above it; that
/// saturates to zero rather than wrapping, because "shallower than the base"
/// and "no depth to report" are the same answer.
#[inline]
pub fn used_here(stack: &WorkerStack, here: usize) -> (r: Option<usize>)
    ensures
        r == depth_below(stack.base_address(), here),
{
    let base: usize = base(stack);
    if base == 0 {
        return None;
    }
    Some(base.saturating_sub(here))
}

/// A measurement comes back exactly when a base is recorded.
pub proof fn law_measured_iff_marked(stack: WorkerStack, here: usize)
    ensures
        depth_below(stack.base_address(), here) is Some <==> stack.is_marked(),
{
}

/// A deeper frame never reports less stack in use, and a frame strictly below
/// one that lies below the base reports strictly more.
pub proof fn law_deeper_reports_more(stack: WorkerStack, shallow: usize, deep: usize)
    requires
        stack.is_marked(),
        deep <= shallow,
    ensures
        depth_below(stack.base_address(), shallow)->0 <= depth_below(
            stack.base_address(),
            deep,
        )->0,
        deep < shallow <= stack.base_address() ==> depth_below(stack.base_address(), shallow)->0
            < depth_below(stack.base_address(), deep)->0,
{
}

/// A frame at or above the base has no depth to report: the measurement
/// saturates and never wraps.
pub proof fn law_above_the_base_is_no_depth(stack: WorkerStack, here: usize)
    requires
        stack.is_marked(),
        here >= stack.base_address(),
    ensures
        depth_below(stack.base_address(), here) == Some(0usize),
{
}

/// A later mark from a deeper frame, whose base lies lower, under-reports: no
/// measurement against it exceeds the one against the earlier mark.
pub proof fn law_lower_base_reports_less(earlier: WorkerStack, later: WorkerStack, here: usize)
    requires
        later.is_marked(),
        later.base_address() <= earlier.base_address(),
    ensures
        depth_below(earlier.base_address(), here) is Some,
        depth_below(later.base_address(), here) is Some,
        depth_below(later.base_address(), here)->0 <= depth_below(
            earlier.base_address(),
            here,
        )->0,
        here < later.base_address() < earlier.base_address() ==> depth_below(
            later.base_address(),
            here,
        )->0 < depth_below(earlier.base_address(), here)->0,
{
}

/// A measurement is the distance itself: on top of the address measured at, it
/// gives the base again, wherever that address lies below the base.
pub proof fn law_measurement_reaches_the_base(stack: WorkerStack, here: usize)
    requires
        stack.is_marked(),
        here <= stack.base_address(),
    ensures
        depth_below(stack.base_address(), here) matches Some(used) && here + used
            == stack.base_address(),
{
}

/// A stack is marked exactly when its base is an address, which is never null; no
/// local has a null address.
pub proof fn law_local_addresses_mark(stack: WorkerStack)
    ensures
        is_local_address(stack.base_address()) ==> stack.is_marked(),
        stack.is_marked() <==> stack.base_address() != 0,
{
}

/// An address is that of a local only where one was taken of some local.
proof fn law_local_addresses_are_taken(address: usize)
    requires
        forall|anchor: u8| !call_ensures(address_of, (&anchor,), address),
    ensures
        !is_local_address(address),
{
}

} // verus!
