//! The shared engine: who initializes it, who waits, and who tears it down.
//!
//! One engine serves the whole process. A counter holds the number of live
//! handles, and a separate flag says that initialization has completed. Both
//! live with the caller, as atomics; this module decides, from the value that
//! an atomic operation returned, what the caller has to do next.

use vstd::prelude::*;

verus! {

/// The number of times a waiting acquirer sleeps before it gives up.
pub const WAIT_LIMIT: usize = 1000;

/// Whether the acquirer that found `previous` handles alive has to initialize the engine.
pub open spec fn initializes(previous: int) -> bool {
    previous == 0
}

/// Whether the release that found `previous` handles alive has to tear the engine down.
pub open spec fn finishes(previous: int) -> bool {
    previous == 1
}

/// What an acquirer has to do once it has incremented the handle count.
#[derive(Debug, Copy, Clone, PartialEq, Eq, Structural)]
pub enum Startup {
    /// Initialize the engine with this UDP encapsulation port (zero: none),
    /// then set the ready flag.
    Initialize { port: u16 },
    /// Another acquirer initializes: wait for the ready flag.
    AwaitReady,
}

/// What a waiting acquirer has to do after it has read the ready flag.
#[derive(Debug, Copy, Clone, PartialEq, Eq, Structural)]
pub enum Wait {
    /// Initialization has completed: the handle may be used.
    Ready,
    /// Sleep for a millisecond and read the flag again; `safety` counts the sleeps.
    Sleep { safety: usize },
    /// Initialization is stuck: there is no safe way to go on.
    TimedOut,
}

/// What a release has to do once it has decremented the handle count.
#[derive(Debug, Copy, Clone, PartialEq, Eq, Structural)]
pub enum Teardown {
    /// This was the last handle: tear the engine down.
    Finish,
    /// Other handles are alive: leave the engine as it is.
    Keep,
}

/// What the acquirer that found `previous` handles alive has to do. Only the
/// acquirer that initializes has its port looked at.
pub open spec fn spec_startup(port: Option<u16>, previous: int) -> Startup {
    if initializes(previous) {
        Startup::Initialize {
            port: match port {
                Some(p) => p,
                None => 0,
            },
        }
    } else {
        Startup::AwaitReady
    }
}

/// What a waiting acquirer has to do when it has read `ready` from the flag
/// after `safety` sleeps.
pub open spec fn spec_wait(ready: bool, safety: int) -> Wait {
    if ready {
        Wait::Ready
    } else if safety < WAIT_LIMIT {
        Wait::Sleep { safety: (safety + 1) as usize }
    } else {
        Wait::TimedOut
    }
}

/// What the release that found `previous` handles alive has to do.
pub open spec fn spec_teardown(previous: int) -> Teardown {
    if finishes(previous) {
        Teardown::Finish
    } else {
        Teardown::Keep
    }
}

/// A live reference to the engine. Sockets borrow from it, so none outlives it.
#[derive(Debug)]
pub struct UsrSctp {}

impl UsrSctp {
    /// Takes a reference to the engine. `previous` is the handle count that
    /// the atomic increment returned. The first acquirer initializes, over UDP
    /// if it names a port; every other one waits, and its port is ignored.
    pub fn new(port: Option<u16>, previous: usize) -> (r: (UsrSctp, Startup))
        ensures
            r.1 == spec_startup(port, previous as int),
    {
        if previous == 0 {
            let p: u16 = match port {
                Some(p) => p,
                None => 0,
            };
            (UsrSctp {  }, Startup::Initialize { port: p })
        } else {
            (UsrSctp {  }, Startup::AwaitReady)
        }
    }

    /// One step of the wait for another acquirer's initialization: `ready` is
    /// what the flag held, `safety` the number of sleeps so far.
    pub fn wait(ready: bool, safety: usize) -> (r: Wait)
        ensures
            r == spec_wait(ready, safety as int),
    {
        if ready {
            Wait::Ready
        } else if safety < WAIT_LIMIT {
            Wait::Sleep { safety: safety + 1 }
        } else {
            Wait::TimedOut
        }
    }

    /// Gives the reference back. `previous` is the handle count that the
    /// atomic decrement returned.
    pub fn release(self, previous: usize) -> (r: Teardown)
        ensures
            r == spec_teardown(previous as int),
    {
        if previous == 1 {
            Teardown::Finish
        } else {
            Teardown::Keep
        }
    }
}

/// Something that happens to the handle count. The atomic counter puts the
/// acquisitions and releases of all threads into one order; a trace is that order.
#[derive(Debug, Copy, Clone, PartialEq, Eq, Structural)]
pub enum Event {
    /// A handle is taken.
    Acquire,
    /// A handle is given back.
    Release,
}

/// The handle count after the events of `trace`, starting from none.
pub open spec fn count_after(trace: Seq<Event>) -> int
    decreases trace.len(),
{
    if trace.len() == 0 {
        0
    } else {
        count_after(trace.drop_last()) + match trace.last() {
            Event::Acquire => 1int,
            Event::Release => -1int,
        }
    }
}

/// No event of `trace` gives back a handle that was not taken.
pub open spec fn well_formed(trace: Seq<Event>) -> bool {
    forall|k: int| 0 <= k <= trace.len() ==> count_after(#[trigger] trace.take(k)) >= 0
}

/// From its first event on, `trace` keeps at least one handle alive until its last event.
pub open spec fn overlapping(trace: Seq<Event>) -> bool {
    forall|k: int| 0 < k < trace.len() ==> count_after(#[trigger] trace.take(k)) > 0
}

/// How often the events of `trace` initialize the engine: once for each
/// acquisition that [`UsrSctp::new`] answers with [`Startup::Initialize`].
pub open spec fn initializations(trace: Seq<Event>) -> nat
    decreases trace.len(),
{
    if trace.len() == 0 {
        0
    } else {
        let before = trace.drop_last();
        initializations(before) + (if trace.last() is Acquire && spec_startup(
            None,
            count_after(before),
        ) is Initialize {
            1nat
        } else {
            0nat
        })
    }
}

/// How often the events of `trace` tear the engine down: once for each release
/// that [`UsrSctp::release`] answers with [`Teardown::Finish`].
pub open spec fn teardowns(trace: Seq<Event>) -> nat
    decreases trace.len(),
{
    if trace.len() == 0 {
        0
    } else {
        let before = trace.drop_last();
        teardowns(before) + (if trace.last() is Release && spec_teardown(
            count_after(before),
        ) is Finish {
            1nat
        } else {
            0nat
        })
    }
}

/// `n` acquisitions followed by `n` releases.
pub open spec fn batch(n: nat) -> Seq<Event> {
    Seq::new(
        2 * n,
        |i: int|
            if i < n {
                Event::Acquire
            } else {
                Event::Release
            },
    )
}

/// Prefixes of a trace without its last event are prefixes of the trace.
proof fn lemma_take_drop_last(trace: Seq<Event>, k: int)
    requires
        0 <= k < trace.len(),
    ensures
        trace.drop_last().take(k) == trace.take(k),
        trace.take(trace.len() as int) == trace,
        trace.take(trace.len() - 1) == trace.drop_last(),
{
    assert(trace.drop_last().take(k) =~= trace.take(k));
    assert(trace.take(trace.len() as int) =~= trace);
    assert(trace.take(trace.len() - 1) =~= trace.drop_last());
}

/// A trace that gives back no handle that was not taken stays so without its last event.
proof fn lemma_prefix_well_formed(trace: Seq<Event>)
    requires
        well_formed(trace),
        trace.len() > 0,
    ensures
        well_formed(trace.drop_last()),
        count_after(trace) >= 0,
        count_after(trace.drop_last()) >= 0,
{
    let before = trace.drop_last();
    assert forall|k: int| 0 <= k <= before.len() implies count_after(#[trigger] before.take(k))
        >= 0 by {
        lemma_take_drop_last(trace, k);
        assert(count_after(trace.take(k)) >= 0);
    }
    lemma_take_drop_last(trace, 0);
    assert(count_after(trace.take(trace.len() as int)) >= 0);
    assert(count_after(trace.take(trace.len() - 1)) >= 0);
}

/// The engine is initialized exactly while a handle is alive: after any events
/// that give back no handle that was not taken, it has been initialized once
/// more than torn down if the count is positive, and as often if it is zero.
pub proof fn lemma_initialized_while_held(trace: Seq<Event>)
    requires
        well_formed(trace),
    ensures
        initializations(trace) == teardowns(trace) + (if count_after(trace) > 0 {
            1nat
        } else {
            0nat
        }),
    decreases trace.len(),
{
    if trace.len() > 0 {
        lemma_prefix_well_formed(trace);
        lemma_initialized_while_held(trace.drop_last());
    }
}

/// Events that keep a handle alive from the first to the last initialize the
/// engine once and do not tear it down.
proof fn lemma_held_throughout(trace: Seq<Event>)
    requires
        trace.len() > 0,
        forall|k: int| 0 < k <= trace.len() ==> count_after(#[trigger] trace.take(k)) > 0,
    ensures
        initializations(trace) == 1,
        teardowns(trace) == 0,
        count_after(trace) > 0,
    decreases trace.len(),
{
    let before = trace.drop_last();
    lemma_take_drop_last(trace, 0);
    assert(count_after(trace.take(trace.len() as int)) > 0);
    if before.len() == 0 {
        assert(count_after(before) == 0);
        assert(initializations(before) == 0);
        assert(teardowns(before) == 0);
    } else {
        assert forall|k: int| 0 < k <= before.len() implies count_after(#[trigger] before.take(k))
            > 0 by {
            lemma_take_drop_last(trace, k);
            assert(count_after(trace.take(k)) > 0);
        }
        lemma_held_throughout(before);
    }
}

/// Acquisitions and releases that overlap, in whatever order, and end with no
/// handle alive initialize the engine once and tear it down once.
pub proof fn lemma_one_teardown(trace: Seq<Event>)
    requires
        trace.len() > 0,
        overlapping(trace),
        count_after(trace) == 0,
    ensures
        initializations(trace) == 1,
        teardowns(trace) == 1,
{
    let before = trace.drop_last();
    if before.len() == 0 {
        assert(count_after(before) == 0);
    } else {
        assert forall|k: int| 0 < k <= before.len() implies count_after(#[trigger] before.take(k))
            > 0 by {
            lemma_take_drop_last(trace, k);
            assert(count_after(trace.take(k)) > 0);
        }
        lemma_held_throughout(before);
    }
}

/// The count within `n` acquisitions followed by `n` releases: up to `n`, then down.
proof fn lemma_batch_prefix_count(n: nat, k: int)
    requires
        0 <= k <= 2 * n,
    ensures
        count_after(batch(n).take(k)) == (if k <= n {
            k
        } else {
            2 * n - k
        }),
    decreases k,
{
    let prefix = batch(n).take(k);
    if k > 0 {
        assert(prefix.drop_last() =~= batch(n).take(k - 1));
        assert(prefix.last() == batch(n)[k - 1]);
        lemma_batch_prefix_count(n, k - 1);
    }
}

/// `n` acquisitions followed by `n` releases, for any `n` of at least one,
/// initialize the engine once and tear it down once.
pub proof fn lemma_batch_one_teardown(n: nat)
    requires
        n >= 1,
    ensures
        well_formed(batch(n)),
        initializations(batch(n)) == 1,
        teardowns(batch(n)) == 1,
{
    let trace = batch(n);
    assert forall|k: int| 0 <= k <= trace.len() implies count_after(#[trigger] trace.take(k))
        >= 0 by {
        lemma_batch_prefix_count(n, k);
    }
    assert forall|k: int| 0 < k < trace.len() implies count_after(#[trigger] trace.take(k))
        > 0 by {
        lemma_batch_prefix_count(n, k);
    }
    lemma_batch_prefix_count(n, (2 * n) as int);
    assert(trace.take((2 * n) as int) =~= trace);
    lemma_one_teardown(trace);
}

} // verus!
