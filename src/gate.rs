//! The idempotency gate of the enabling operation.
//!
//! Two monotonic flags decide what a call does: a flag owned by the calling
//! thread, and a flag shared by the process. A call that turns its thread's
//! flag from false to true is the first on its thread and unmasks that
//! thread's traps; if it also turns the process flag from false to true it is
//! the first in the process and installs the fault handler, before unmasking.
//! Every other call does nothing.
use std::sync::atomic::{AtomicBool, Ordering};
use vstd::prelude::*;

verus! {

/// What one call of the enabling operation has to carry out, in this order.
#[derive(Clone, Copy, Debug, PartialEq, Eq, Structural)]
pub struct Plan {
    /// Install the process-wide fault handler.
    pub install_handler: bool,
    /// Unmask the trap bits of the calling thread's registers.
    pub unmask_traps: bool,
}

/// The plan of a call, given whether it won the exchange on its thread's flag
/// and whether it won the one on the process flag (attempted only by a winner
/// on the thread's flag).
pub open spec fn planned(thread_won: bool, process_won: bool) -> Plan {
    Plan { install_handler: thread_won && process_won, unmask_traps: thread_won }
}

/// The plan of a call from the outcomes of its two exchanges.
pub fn plan_for(thread_won: bool, process_won: bool) -> (p: Plan)
    ensures
        p == planned(thread_won, process_won),
        p.install_handler ==> p.unmask_traps,
{
    Plan { install_handler: thread_won && process_won, unmask_traps: thread_won }
}

/// Decides a call of the enabling operation from its thread's flag and the
/// process flag: each is turned from false to true, sequentially consistent on success and
/// acquiring on failure, and the process flag only after the thread's flag
/// was won. With `active` false, as in an optimised build, neither flag is
/// touched and nothing is to be done. A handler is never to be installed
/// without the thread being unmasked right after.
pub fn claim(active: bool, thread_flag: &AtomicBool, process_flag: &AtomicBool) -> (p: Plan)
    ensures
        !active ==> p == planned(false, false),
        p.install_handler ==> p.unmask_traps,
{
    if !active {
        return plan_for(false, false);
    }
    let thread_won = thread_flag.compare_exchange(false, true, Ordering::SeqCst, Ordering::Acquire).is_ok();
    if !thread_won {
        return plan_for(false, false);
    }
    let process_won = process_flag.compare_exchange(false, true, Ordering::SeqCst, Ordering::Acquire).is_ok();
    plan_for(thread_won, process_won)
}

// A model of a run of the process. Each call is given by the thread that
// makes it, and calls take effect one after another, with the flags read and
// written as the exchanges in `claim` do.

/// Whether call `i` of `calls` wins its thread's flag: no earlier call was
/// made by the same thread.
pub open spec fn wins_thread(calls: Seq<int>, i: int) -> bool {
    !calls.take(i).contains(calls[i])
}

/// Whether call `i` of `calls` wins the process flag: it reaches the exchange
/// and no earlier call reached it.
pub open spec fn wins_process(calls: Seq<int>, i: int) -> bool {
    wins_thread(calls, i) && forall|j: int| 0 <= j < i ==> !#[trigger] wins_thread(calls, j)
}

/// The plan that call `i` of `calls` carries out.
pub open spec fn plan_of_call(calls: Seq<int>, i: int) -> Plan {
    planned(wins_thread(calls, i), wins_process(calls, i))
}

/// How many calls of `calls` made by thread `t` unmask its registers.
pub open spec fn unmask_count(calls: Seq<int>, t: int) -> nat
    decreases calls.len(),
{
    if calls.len() == 0 {
        0
    } else {
        let i = calls.len() - 1;
        unmask_count(calls.drop_last(), t) + if calls[i] == t && plan_of_call(calls, i).unmask_traps {
            1nat
        } else {
            0nat
        }
    }
}

/// How many calls of `calls` install the handler.
pub open spec fn install_count(calls: Seq<int>) -> nat
    decreases calls.len(),
{
    if calls.len() == 0 {
        0
    } else {
        let i = calls.len() - 1;
        install_count(calls.drop_last()) + if plan_of_call(calls, i).install_handler {
            1nat
        } else {
            0nat
        }
    }
}

/// The first call of a run is the only one that wins the process flag.
proof fn lemma_wins_process_first(calls: Seq<int>, i: int)
    requires
        0 <= i < calls.len(),
    ensures
        wins_process(calls, i) == (i == 0),
{
    assert(calls.take(0) =~= Seq::<int>::empty());
    assert(wins_thread(calls, 0));
}

/// However many times a thread calls the enabling operation, and however its
/// calls interleave with those of other threads, exactly one of its calls
/// unmasks its registers if it made any, and none if it made none.
pub proof fn lemma_unmask_once_per_thread(calls: Seq<int>, t: int)
    ensures
        unmask_count(calls, t) == if calls.contains(t) {
            1nat
        } else {
            0nat
        },
    decreases calls.len(),
{
    if calls.len() > 0 {
        let p = calls.drop_last();
        let i = calls.len() - 1;
        lemma_unmask_once_per_thread(p, t);
        assert(calls.take(i) =~= p);
        assert(calls =~= p.push(calls[i]));
        if calls[i] == t {
            assert(calls.contains(t));
        } else {
            if calls.contains(t) {
                let k = choose|k: int| 0 <= k < calls.len() && calls[k] == t;
                assert(p[k] == t);
            }
            if p.contains(t) {
                let k = choose|k: int| 0 <= k < p.len() && p[k] == t;
                assert(calls[k] == t);
            }
        }
    }
}

/// In any run the handler is installed once, by the first call, and not at
/// all in a run without calls.
pub proof fn lemma_single_install(calls: Seq<int>)
    ensures
        install_count(calls) == if calls.len() > 0 {
            1nat
        } else {
            0nat
        },
        forall|i: int|
            0 <= i < calls.len() ==> (#[trigger] plan_of_call(calls, i)).install_handler == (i
                == 0),
    decreases calls.len(),
{
    assert forall|i: int| 0 <= i < calls.len() implies (#[trigger] plan_of_call(
        calls,
        i,
    )).install_handler == (i == 0) by {
        lemma_wins_process_first(calls, i);
        assert(calls.take(0) =~= Seq::<int>::empty());
    }
    if calls.len() > 0 {
        let p = calls.drop_last();
        lemma_single_install(p);
    }
}

/// Every call that unmasks a thread's registers comes at or after the call
/// that installs the handler, and a call that does both installs first (the
/// order of `Plan`). So no thread is unmasked while the handler is missing.
pub proof fn lemma_installed_before_unmask(calls: Seq<int>, i: int)
    requires
        0 <= i < calls.len(),
        plan_of_call(calls, i).unmask_traps,
    ensures
        exists|j: int| 0 <= j <= i && (#[trigger] plan_of_call(calls, j)).install_handler,
{
    lemma_single_install(calls);
    assert(plan_of_call(calls, 0).install_handler);
}

} // verus!
