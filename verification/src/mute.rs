//! The mute patcher.
//!
//! The goal is to make the host's output primitive report success without
//! performing any I/O, permanently, by overwriting the start of its live
//! code with a precompiled payload. The library plans and sequences that
//! patch; the operating-system calls it asks for — the page-size query,
//! the protection changes, the byte copy into executable memory — are
//! performed outside and their results handed back as events.
//!
//! The sequence is: query the page size; grant write access (keeping
//! execute, since the very page being patched may hold code that is still
//! running) on the page containing the target function; copy the payload;
//! restore execute-only access. A failure of the grant aborts the whole
//! operation with its error; a failure of the restore is swallowed — the
//! patch is already in place, and a page left writable is a degraded but
//! functional state.

use vstd::arithmetic::div_mod::lemma_fundamental_div_mod;
use vstd::arithmetic::div_mod::lemma_mod_multiples_basic;
use vstd::arithmetic::power2::lemma_pow2_pos;
use vstd::arithmetic::power2::pow2;
use vstd::bits::lemma_usize_low_bits_mask_is_mod;
use vstd::bits::low_bits_mask;
use vstd::prelude::*;

use crate::errno::Errno;
use crate::prot::Prot;

verus! {

/// Whether `n` is a power of two small enough to be a mask over addresses.
pub open spec fn is_power_of_two(n: usize) -> bool {
    exists|k: nat| k < usize::BITS && n == pow2(k)
}

/// The start of the memory page containing `addr`, for a page size that is
/// a power of two, computed by masking the low bits away.
pub fn page_base(addr: usize, page_size: usize) -> (r: usize)
    requires
        is_power_of_two(page_size),
    ensures
        r == addr - addr % page_size,
        r % page_size == 0,
        r <= addr,
        addr - r < page_size,
{
    proof {
        let k = choose|k: nat| k < usize::BITS && page_size == pow2(k);
        lemma_pow2_pos(k);
    }
    let mask: usize = page_size - 1;
    let r: usize = addr & !mask;
    proof {
        let k = choose|k: nat| k < usize::BITS && page_size == pow2(k);
        lemma_pow2_pos(k);
        assert(mask == low_bits_mask(k));
        lemma_usize_low_bits_mask_is_mod(addr, k);
        lemma_mask_split(addr, mask);
        assert(r == addr - addr % page_size);
        lemma_fundamental_div_mod(addr as int, page_size as int);
        assert(r == page_size * (addr as int / page_size as int));
        lemma_mod_multiples_basic(addr as int / page_size as int, page_size as int);
    }
    r
}

/// A mask splits a word into two disjoint parts that add back up to it.
proof fn lemma_mask_split(a: usize, m: usize)
    by (bit_vector)
    ensures
        (a & !m) + (a & m) == a,
        (a & !m) & m == 0,
        a & m <= m,
{
}

/// Everything the patch sequence needs to know: the target function's
/// entry address and the page containing it.
#[derive(Clone, Copy, Debug, PartialEq, Eq, Structural)]
pub struct MutePlan {
    /// The entry address of the function to overwrite.
    pub fn_addr: usize,
    /// The start of the page containing that address.
    pub page_addr: usize,
    /// The length of that page.
    pub page_len: usize,
}

/// Computes the patch plan for a target function entry and a page size.
pub fn mute_plan(fn_addr: usize, page_size: usize) -> (r: MutePlan)
    requires
        is_power_of_two(page_size),
    ensures
        r.fn_addr == fn_addr,
        r.page_len == page_size,
        r.page_addr == fn_addr - fn_addr % page_size,
{
    MutePlan { fn_addr, page_addr: page_base(fn_addr, page_size), page_len: page_size }
}

/// Where the patch sequence stands.
#[derive(Clone, Copy, Debug)]
pub enum MuteState {
    /// The page size has not been queried yet.
    QueryPageSize,
    /// Write access to the target page must be granted next.
    Grant {
        /// The plan the sequence follows.
        plan: MutePlan,
    },
    /// The payload must be copied over the target function next.
    CopyPayload {
        /// The plan the sequence follows.
        plan: MutePlan,
    },
    /// Execute-only access must be restored next.
    Restore {
        /// The plan the sequence follows.
        plan: MutePlan,
    },
    /// The sequence is over.
    Done {
        /// Success, or the error that aborted the sequence.
        outcome: Result<(), Errno>,
    },
}

/// The answer of the operating-system call a state asked for.
#[derive(Clone, Copy, Debug)]
pub enum MuteEvent {
    /// The page-size query answered.
    PageSize {
        /// The page size, or the query's error.
        result: Result<usize, Errno>,
    },
    /// A protection-change request answered.
    ProtChanged {
        /// Whether the change was applied.
        change: Result<(), Errno>,
    },
    /// The payload bytes were copied over the target function.
    PayloadCopied,
}

/// The operating-system call a state asks for.
#[derive(Clone, Copy, Debug)]
pub enum MuteCall {
    /// Query the page size (resetting the error state first, as the query's
    /// own convention demands).
    GetPageSize,
    /// Change the protection of the page `[page_addr, page_addr + page_len)`.
    ChangeProt {
        /// The start of the page, as the plan computed it.
        page_addr: usize,
        /// The length of the page.
        page_len: usize,
        /// The access rights to request.
        prot: Prot,
    },
    /// Copy the payload bytes to `dst`, the target function's entry.
    WritePayload {
        /// The destination address.
        dst: usize,
    },
    /// The sequence is over; no further call.
    Finish {
        /// The sequence's outcome.
        outcome: Result<(), Errno>,
    },
}

/// The rights requested while the payload is written: write access plus
/// execute, never dropping execute, since code in the page may be running.
pub open spec fn grant_prot() -> Prot {
    Prot { readable: false, writable: true, executable: true }
}

/// The rights requested once the payload is in place: execute only.
pub open spec fn restore_prot() -> Prot {
    Prot { readable: false, writable: false, executable: true }
}

/// The call each state asks for.
pub open spec fn spec_mute_call(state: MuteState) -> MuteCall {
    match state {
        MuteState::QueryPageSize => MuteCall::GetPageSize,
        MuteState::Grant { plan } => MuteCall::ChangeProt {
            page_addr: plan.page_addr,
            page_len: plan.page_len,
            prot: grant_prot(),
        },
        MuteState::CopyPayload { plan } => MuteCall::WritePayload { dst: plan.fn_addr },
        MuteState::Restore { plan } => MuteCall::ChangeProt {
            page_addr: plan.page_addr,
            page_len: plan.page_len,
            prot: restore_prot(),
        },
        MuteState::Done { outcome } => MuteCall::Finish { outcome },
    }
}

/// Returns the operating-system call the sequence asks for in `state`.
pub fn mute_call(state: &MuteState) -> (r: MuteCall)
    ensures
        r == spec_mute_call(*state),
{
    match state {
        MuteState::QueryPageSize => MuteCall::GetPageSize,
        MuteState::Grant { plan } => MuteCall::ChangeProt {
            page_addr: plan.page_addr,
            page_len: plan.page_len,
            prot: Prot::new(false, true, true),
        },
        MuteState::CopyPayload { plan } => MuteCall::WritePayload { dst: plan.fn_addr },
        MuteState::Restore { plan } => MuteCall::ChangeProt {
            page_addr: plan.page_addr,
            page_len: plan.page_len,
            prot: Prot::new(false, false, true),
        },
        MuteState::Done { outcome } => MuteCall::Finish { outcome: *outcome },
    }
}

/// Whether `event` answers the call that `state` asked for. A page size
/// must be a power of two: the masking the plan rests on assumes it, and
/// the driver must treat anything else as an internal fault.
pub open spec fn mute_event_fits(state: MuteState, event: MuteEvent) -> bool {
    match state {
        MuteState::QueryPageSize => event matches MuteEvent::PageSize { result } && (
        result matches Ok(ps) ==> is_power_of_two(ps)),
        MuteState::Grant { .. } => event is ProtChanged,
        MuteState::CopyPayload { .. } => event is PayloadCopied,
        MuteState::Restore { .. } => event is ProtChanged,
        MuteState::Done { .. } => false,
    }
}

/// The next state after `event` answered `state`'s call, for a patch of
/// the function at `fn_addr`. The grant's failure aborts the sequence with
/// that error; the restore's failure is swallowed.
pub open spec fn spec_mute_step(state: MuteState, event: MuteEvent, fn_addr: usize) -> MuteState {
    match (state, event) {
        (MuteState::QueryPageSize, MuteEvent::PageSize { result: Ok(ps) }) => MuteState::Grant {
            plan: MutePlan {
                fn_addr,
                page_addr: (fn_addr - fn_addr % ps) as usize,
                page_len: ps,
            },
        },
        (MuteState::QueryPageSize, MuteEvent::PageSize { result: Err(e) }) => MuteState::Done {
            outcome: Err(e),
        },
        (MuteState::Grant { plan }, MuteEvent::ProtChanged { change: Ok(_) }) => {
            MuteState::CopyPayload { plan }
        },
        (MuteState::Grant { .. }, MuteEvent::ProtChanged { change: Err(e) }) => MuteState::Done {
            outcome: Err(e),
        },
        (MuteState::CopyPayload { plan }, MuteEvent::PayloadCopied) => MuteState::Restore { plan },
        (MuteState::Restore { .. }, MuteEvent::ProtChanged { .. }) => MuteState::Done {
            outcome: Ok(()),
        },
        _ => state,
    }
}

/// Advances the patch sequence by one answered call.
pub fn mute_step(state: MuteState, event: MuteEvent, fn_addr: usize) -> (r: MuteState)
    requires
        mute_event_fits(state, event),
    ensures
        r == spec_mute_step(state, event, fn_addr),
{
    match (state, event) {
        (MuteState::QueryPageSize, MuteEvent::PageSize { result }) => match result {
            Ok(ps) => MuteState::Grant { plan: mute_plan(fn_addr, ps) },
            Err(e) => MuteState::Done { outcome: Err(e) },
        },
        (MuteState::Grant { plan }, MuteEvent::ProtChanged { change }) => match change {
            Ok(_) => MuteState::CopyPayload { plan },
            Err(e) => MuteState::Done { outcome: Err(e) },
        },
        (MuteState::CopyPayload { plan }, MuteEvent::PayloadCopied) => MuteState::Restore { plan },
        (MuteState::Restore { .. }, MuteEvent::ProtChanged { .. }) => MuteState::Done {
            outcome: Ok(()),
        },
        (s, _) => s,
    }
}

/// Law: once the payload is in place, the sequence requests exactly
/// execute-only rights for the patched page — write access is dropped —
/// and then completes successfully whatever that last request answered.
pub proof fn lemma_restore_exact(plan: MutePlan, result: Result<(), Errno>, fn_addr: usize)
    ensures
        spec_mute_call(MuteState::Restore { plan }) == (MuteCall::ChangeProt {
            page_addr: plan.page_addr,
            page_len: plan.page_len,
            prot: restore_prot(),
        }),
        restore_prot().is_exec_only(),
        spec_mute_step(MuteState::Restore { plan }, MuteEvent::ProtChanged { change: result }, fn_addr)
            == (MuteState::Done { outcome: Ok::<(), Errno>(()) }),
{
}

} // verus!
