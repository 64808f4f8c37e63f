//! Supervisor Call (System Calls)
//!
//! Callers build an [`SvcOrder`] on their own stack and trap into the
//! kernel; the SVCall exception evaluates the request and writes the
//! result back into the order. The semihosting requests exchange bytes
//! with the debug host, modeled as the [`Semihosting`] channel.

use crate::kernel::exceptions::SVCall;
use crate::kernel::scheduler::Scheduler;
use crate::util::register::Register;
use vstd::prelude::*;
use vstd::slice::slice_index_get;
use vstd::string::StringSliceAdditionalSpecFns;

verus! {

/// Maximum length of text being written to the console in one order.
/// The last byte is always zero, so the text itself is truncated to one
/// byte less.
pub const SEMIHOSTING_WRITE_LENGTH: usize = 64;

/// System call requests.
pub enum SvcRequest {
    /// Writes a zero-terminated sequence of bytes to the console.
    SemihostingWrite0(Vec<u8>),
    /// Writes one character to the console.
    SemihostingWriteC(u8),
    /// Reads one character from the console.
    SemihostingReadC,
    /// Yields the process. Returns to the scheduler.
    Yield,
}

/// A system call writes its result as an [`SvcResult`] variant.
#[derive(Debug, PartialEq, Eq, Structural)]
pub enum SvcResult {
    Empty,
    Char(u8),
}

/// Helper struct for system calls. The order itself is allocated on the
/// calling process's stack; the SVCall exception evaluates the request
/// and writes any result back into the order.
pub struct SvcOrder {
    pub request: SvcRequest,
    pub response: SvcResult,
}

/// The debug channel to the host: bytes the host has sent and the
/// kernel has not read yet, and bytes written out to the host.
pub struct Semihosting {
    pub input: Vec<u8>,
    pub output: Vec<u8>,
}

impl Semihosting {
    /// A quiet channel: nothing to read, nothing written.
    pub fn new() -> (h: Semihosting)
        ensures
            h.input@ == Seq::<u8>::empty(),
            h.output@ == Seq::<u8>::empty(),
    {
        Semihosting { input: Vec::new(), output: Vec::new() }
    }
}

/// The zero-terminated prefix of a byte sequence: everything before the
/// first zero byte, or the whole sequence when none occurs.
pub open spec fn cstr_prefix(s: Seq<u8>) -> Seq<u8>
    decreases s.len(),
{
    if s.len() == 0 || s[0] == 0 {
        Seq::empty()
    } else {
        seq![s[0]] + cstr_prefix(s.drop_first())
    }
}

/// The zero-terminated prefix is the sequence up to the first zero: the
/// take of any index below which no zero occurs and at which the
/// sequence ends or holds zero.
pub proof fn lemma_cstr_prefix_take(s: Seq<u8>, i: int)
    requires
        0 <= i <= s.len(),
        forall|j: int| 0 <= j < i ==> s[j] != 0,
        i == s.len() || s[i] == 0,
    ensures
        cstr_prefix(s) == s.take(i),
    decreases i,
{
    if s.len() == 0 || s[0] == 0 {
        assert(i == 0);
        assert(s.take(0) =~= Seq::<u8>::empty());
    } else {
        assert(i >= 1);
        lemma_cstr_prefix_take(s.drop_first(), i - 1);
        assert(s.take(i) =~= seq![s[0]] + s.drop_first().take(i - 1));
    }
}

/// The 64-byte buffer `sprint` builds for a text: the text's bytes
/// truncated to 63, the rest zero.
pub open spec fn sprint_buffer(s: Seq<u8>) -> Seq<u8> {
    Seq::new(
        SEMIHOSTING_WRITE_LENGTH as nat,
        |i: int|
            if i < s.len() && i < SEMIHOSTING_WRITE_LENGTH - 1 {
                s[i]
            } else {
                0u8
            },
    )
}

/// A text of at most 63 bytes without zero bytes goes to the console
/// whole: the zero-terminated prefix of its `sprint` buffer is the text
/// itself.
pub proof fn lemma_sprint_exact(s: Seq<u8>)
    requires
        s.len() < SEMIHOSTING_WRITE_LENGTH,
        forall|j: int| 0 <= j < s.len() ==> s[j] != 0,
    ensures
        cstr_prefix(sprint_buffer(s)) == s,
{
    lemma_cstr_prefix_take(sprint_buffer(s), s.len() as int);
    assert(sprint_buffer(s).take(s.len() as int) =~= s);
}

/// Triggers a system call: builds the order, traps into the SVCall
/// handler, and returns the response the handler wrote back.
pub fn syscall(
    request: SvcRequest,
    scheduler: &mut Scheduler,
    icsr: &mut Register,
    host: &mut Semihosting,
) -> (r: SvcResult)
    requires
        old(scheduler).wf(),
        request is SemihostingReadC ==> old(host).input@.len() > 0,
    ensures
        final(scheduler).wf(),
        final(scheduler).table() == old(scheduler).table(),
        final(scheduler).current() == old(scheduler).current(),
        final(scheduler).sched_policy() == old(scheduler).sched_policy(),
        final(scheduler).cycle_index() == old(scheduler).cycle_index(),
        match request {
            SvcRequest::SemihostingWrite0(text) => {
                &&& r == SvcResult::Empty
                &&& final(host).output@ == old(host).output@ + cstr_prefix(text@)
                &&& final(host).input@ == old(host).input@
                &&& *final(icsr) == *old(icsr)
                &&& final(scheduler).timer_model() == old(scheduler).timer_model()
            },
            SvcRequest::SemihostingWriteC(c) => {
                &&& r == SvcResult::Empty
                &&& final(host).output@ == old(host).output@.push(c)
                &&& final(host).input@ == old(host).input@
                &&& *final(icsr) == *old(icsr)
                &&& final(scheduler).timer_model() == old(scheduler).timer_model()
            },
            SvcRequest::SemihostingReadC => {
                &&& r == SvcResult::Char(old(host).input@[0])
                &&& final(host).input@ == old(host).input@.drop_first()
                &&& final(host).output@ == old(host).output@
                &&& *final(icsr) == *old(icsr)
                &&& final(scheduler).timer_model() == old(scheduler).timer_model()
            },
            SvcRequest::Yield => {
                &&& r == SvcResult::Empty
                &&& final(scheduler).timer_model().stk_ctrl.val() == old(
                    scheduler,
                ).timer_model().stk_ctrl.val() & !1u32
                &&& final(scheduler).timer_model().stk_load == old(
                    scheduler,
                ).timer_model().stk_load
                &&& final(scheduler).timer_model().stk_val == old(scheduler).timer_model().stk_val
                &&& final(icsr).val() == (old(icsr).val() | 0x0200_0000u32) | 0x1000_0000u32
                &&& final(host).input@ == old(host).input@
                &&& final(host).output@ == old(host).output@
            },
        },
{
    let mut order = SvcOrder { request, response: SvcResult::Empty };
    SVCall(&mut order, scheduler, icsr, host);
    order.response
}

/// Convenient method for printing text on the console. The text is
/// copied into a [`SEMIHOSTING_WRITE_LENGTH`]-byte buffer, truncated to
/// one byte less than that, and the tail is zero-terminated; the buffer
/// goes out through a `SemihostingWrite0` system call.
pub fn sprint(text: &str, scheduler: &mut Scheduler, icsr: &mut Register, host: &mut Semihosting)
    requires
        old(scheduler).wf(),
    ensures
        final(scheduler).wf(),
        final(scheduler).table() == old(scheduler).table(),
        final(scheduler).current() == old(scheduler).current(),
        final(scheduler).sched_policy() == old(scheduler).sched_policy(),
        final(scheduler).cycle_index() == old(scheduler).cycle_index(),
        final(scheduler).timer_model() == old(scheduler).timer_model(),
        *final(icsr) == *old(icsr),
        final(host).input@ == old(host).input@,
        final(host).output@ == old(host).output@ + cstr_prefix(sprint_buffer(text.spec_bytes())),
{
    let bytes = text.as_bytes();
    let mut whole: Vec<u8> = Vec::new();
    let mut index: usize = 0;
    while index < SEMIHOSTING_WRITE_LENGTH
        invariant
            index <= SEMIHOSTING_WRITE_LENGTH,
            whole@.len() == index,
            bytes@ == text.spec_bytes(),
            forall|i: int| 0 <= i < index ==> whole@[i] == sprint_buffer(text.spec_bytes())[i],
        decreases SEMIHOSTING_WRITE_LENGTH - index,
    {
        if index < bytes.len() && index < SEMIHOSTING_WRITE_LENGTH - 1 {
            whole.push(*slice_index_get(bytes, index));
        } else {
            whole.push(0);
        }
        index = index + 1;
    }
    proof {
        assert(whole@ =~= sprint_buffer(text.spec_bytes()));
    }
    syscall(SvcRequest::SemihostingWrite0(whole), scheduler, icsr, host);
}

} // verus!
