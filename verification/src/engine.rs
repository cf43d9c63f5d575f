//! The host engine: heap, protection stack, thread guard and console.
//!
//! The engine is the explicit, passed-around model of the host runtime's
//! process-wide state.  A value lives in the heap at a raw reference (its
//! index, which never changes and is never reused); the protection stack is
//! the collector's LIFO register of reachable values; the thread guard pins
//! all interaction to the one thread the host trusts; the console receives
//! diagnostic bytes.

use vstd::prelude::*;

use crate::error::Error;
use crate::value::RValue;

verus! {

/// Whether a handle owns its protection-stack registration or merely
/// borrows a value kept alive by someone else.
#[derive(Clone, Copy, Debug, PartialEq, Eq, Structural)]
pub enum Ownership {
    Owned,
    Borrowed,
}

/// A reference to one host-managed value.
///
/// `raw` is the value's heap reference.  An `Owned` handle records in `slot`
/// the protection-stack position that keeps its value alive; a `Borrowed`
/// handle does no protection bookkeeping and `slot` is 0.
#[derive(Clone, Copy, Debug, PartialEq, Eq, Structural)]
pub struct Handle {
    pub raw: usize,
    pub ownership: Ownership,
    pub slot: usize,
}

/// The single-thread access guard's state: untouched, or pinned to the one
/// thread the host trusts.
#[derive(Clone, Copy, Debug, PartialEq, Eq, Structural)]
pub enum ThreadGuard {
    Uninitialized,
    Active(u64),
}

/// One registered call-dispatch entry: an interned symbol name, the identity
/// of its trampoline, and the declared argument count.
#[derive(Clone, Debug)]
pub struct CallMethod {
    /// The symbol under which the host reaches the function; a C-string
    /// identity, so it must carry no interior NUL.
    pub call_symbol: String,
    /// The identity of the trampoline behind the symbol.  The model keys
    /// trampolines by number where the host would hold a code address.
    pub func_ptr: usize,
    /// The declared arity; the host rejects mismatching calls itself.
    pub num_args: i32,
}

/// The host runtime's process-wide state.
pub struct Engine {
    /// Every value ever allocated, at its raw reference; entries are never
    /// moved or reused while the engine lives.
    pub heap: Vec<RValue>,
    /// The collector's protection stack: raw references of values currently
    /// shielded from collection, in acquisition order.
    pub protect: Vec<usize>,
    /// The single-thread access guard.
    pub guard: ThreadGuard,
    /// The published call-dispatch table.
    pub methods: Vec<CallMethod>,
    /// Whether the dispatch table has been published; publishing twice is
    /// a load-time error.
    pub registered: bool,
    /// Bytes written to the host's standard output stream.
    pub output: Vec<u8>,
    /// Bytes written to the host's standard error stream.
    pub error_output: Vec<u8>,
}

impl Handle {
    /// Whether this handle is meaningful against engine state `e`: its raw
    /// reference names a heap entry, and an owned handle's slot really holds
    /// its raw reference on the protection stack.
    pub open spec fn valid(&self, e: &Engine) -> bool {
        &&& self.raw < e.heap@.len()
        &&& self.ownership == Ownership::Owned ==> {
            &&& self.slot < e.protect@.len()
            &&& e.protect@[self.slot as int] == self.raw
        }
    }

    /// Whether this handle owns a protection-stack registration.
    pub open spec fn is_owned(&self) -> bool {
        self.ownership == Ownership::Owned
    }
}

impl Engine {
    /// A fresh engine: empty heap, empty protection stack, guard untouched,
    /// no dispatch table, empty console.
    pub fn new() -> (e: Engine)
        ensures
            e.heap@.len() == 0,
            e.protect@.len() == 0,
            e.guard == ThreadGuard::Uninitialized,
            e.methods@.len() == 0,
            !e.registered,
            e.output@.len() == 0,
            e.error_output@.len() == 0,
    {
        Engine {
            heap: Vec::new(),
            protect: Vec::new(),
            guard: ThreadGuard::Uninitialized,
            methods: Vec::new(),
            registered: false,
            output: Vec::new(),
            error_output: Vec::new(),
        }
    }

    /// The current protection-stack depth.
    pub fn protect_depth(&self) -> (n: usize)
        ensures
            n == self.protect@.len(),
    {
        self.protect.len()
    }

    /// Place a value on the heap and return its raw reference.  The heap
    /// only grows: every existing reference still names the same value.
    pub fn allocate(&mut self, v: RValue) -> (raw: usize)
        requires
            old(self).heap@.len() < usize::MAX,
        ensures
            raw == old(self).heap@.len(),
            final(self).heap@ == old(self).heap@.push(v),
            final(self).protect@ == old(self).protect@,
            final(self).guard == old(self).guard,
            final(self).methods@ == old(self).methods@,
            final(self).registered == old(self).registered,
            final(self).output@ == old(self).output@,
            final(self).error_output@ == old(self).error_output@,
    {
        let raw = self.heap.len();
        self.heap.push(v);
        raw
    }

    /// Read the value a handle refers to.
    pub fn value_of<'a>(&'a self, h: &Handle) -> (v: &'a RValue)
        requires
            h.valid(self),
        ensures
            *v == self.heap@[h.raw as int],
    {
        &self.heap[h.raw]
    }

    /// Register a raw reference with the collector's protection stack and
    /// hand out the owned handle that records the registration.
    pub fn acquire_owned(&mut self, raw: usize) -> (h: Handle)
        requires
            raw < old(self).heap@.len(),
            old(self).protect@.len() < usize::MAX,
        ensures
            h.raw == raw,
            h.ownership == Ownership::Owned,
            h.slot == old(self).protect@.len(),
            h.valid(final(self)),
            final(self).protect@ == old(self).protect@.push(raw),
            final(self).heap@ == old(self).heap@,
            final(self).guard == old(self).guard,
            final(self).methods@ == old(self).methods@,
            final(self).registered == old(self).registered,
            final(self).output@ == old(self).output@,
            final(self).error_output@ == old(self).error_output@,
    {
        let slot = self.protect.len();
        self.protect.push(raw);
        Handle { raw, ownership: Ownership::Owned, slot }
    }

    /// Hand out a borrowed handle: no protection bookkeeping at all.  The
    /// caller must not let it outlive whatever keeps the value protected.
    pub fn borrow_handle(&self, raw: usize) -> (h: Handle)
        requires
            raw < self.heap@.len(),
        ensures
            h.raw == raw,
            h.ownership == Ownership::Borrowed,
            h.valid(self),
    {
        Handle { raw, ownership: Ownership::Borrowed, slot: 0 }
    }

    /// Clone an owned reference to the same value: a fresh registration on
    /// top of the protection stack, sharing the original's lifetime rules.
    pub fn clone_owned(&mut self, h: &Handle) -> (h2: Handle)
        requires
            h.valid(old(self)),
            old(self).protect@.len() < usize::MAX,
        ensures
            h2.raw == h.raw,
            h2.ownership == Ownership::Owned,
            h2.slot == old(self).protect@.len(),
            h2.valid(final(self)),
            final(self).protect@ == old(self).protect@.push(h.raw),
            final(self).heap@ == old(self).heap@,
            final(self).guard == old(self).guard,
            final(self).methods@ == old(self).methods@,
            final(self).registered == old(self).registered,
            final(self).output@ == old(self).output@,
            final(self).error_output@ == old(self).error_output@,
    {
        self.acquire_owned(h.raw)
    }

    /// Deregister an owned handle.  The collector's invariant is a stack,
    /// not a set: the release is accepted if and only if the handle's
    /// registration is exactly the top of the protection stack.  An
    /// out-of-order release is detected and rejected, leaving every piece of
    /// engine state untouched.
    pub fn release(&mut self, h: &Handle) -> (ok: bool)
        requires
            h.is_owned(),
        ensures
            ok == (h.slot + 1 == old(self).protect@.len() && old(self).protect@.len() > 0
                && old(self).protect@.last() == h.raw),
            ok ==> final(self).protect@ == old(self).protect@.drop_last(),
            !ok ==> final(self).protect@ == old(self).protect@,
            final(self).heap@ == old(self).heap@,
            final(self).guard == old(self).guard,
            final(self).methods@ == old(self).methods@,
            final(self).registered == old(self).registered,
            final(self).output@ == old(self).output@,
            final(self).error_output@ == old(self).error_output@,
    {
        let depth = self.protect.len();
        if depth > 0 && h.slot == depth - 1 && self.protect[depth - 1] == h.raw {
            self.protect.pop();
            true
        } else {
            false
        }
    }

    /// First interaction pins the guard to the calling thread; later
    /// interactions succeed only from that same thread.  Returns whether the
    /// caller may touch the engine.
    pub fn check_thread(&mut self, thread_id: u64) -> (ok: bool)
        ensures
            match old(self).guard {
                ThreadGuard::Uninitialized => ok && final(self).guard == ThreadGuard::Active(
                    thread_id,
                ),
                ThreadGuard::Active(t) => ok == (t == thread_id) && final(self).guard == old(self).guard,
            },
            final(self).heap@ == old(self).heap@,
            final(self).protect@ == old(self).protect@,
            final(self).methods@ == old(self).methods@,
            final(self).registered == old(self).registered,
            final(self).output@ == old(self).output@,
            final(self).error_output@ == old(self).error_output@,
    {
        match self.guard {
            ThreadGuard::Uninitialized => {
                self.guard = ThreadGuard::Active(thread_id);
                true
            },
            ThreadGuard::Active(t) => t == thread_id,
        }
    }

    /// Open a single-threaded scope: assert exclusive access for a block of
    /// work.  On success the prior guard state is handed back so that the
    /// scope can be closed with [`Engine::single_threaded_end`] on every
    /// exit path; from a wrong thread the scope is refused.
    pub fn single_threaded_begin(&mut self, thread_id: u64) -> (r: Result<ThreadGuard, Error>)
        ensures
            match old(self).guard {
                ThreadGuard::Uninitialized => r == Result::<ThreadGuard, Error>::Ok(
                    ThreadGuard::Uninitialized,
                ) && final(self).guard == ThreadGuard::Active(thread_id),
                ThreadGuard::Active(t) => if t == thread_id {
                    r == Result::<ThreadGuard, Error>::Ok(ThreadGuard::Active(t)) && final(self).guard == old(self).guard
                } else {
                    r == Result::<ThreadGuard, Error>::Err(Error::RuntimeSignaledError) && final(self).guard == old(self).guard
                },
            },
            final(self).heap@ == old(self).heap@,
            final(self).protect@ == old(self).protect@,
            final(self).methods@ == old(self).methods@,
            final(self).registered == old(self).registered,
            final(self).output@ == old(self).output@,
            final(self).error_output@ == old(self).error_output@,
    {
        let prior = self.guard;
        match self.guard {
            ThreadGuard::Uninitialized => {
                self.guard = ThreadGuard::Active(thread_id);
                Ok(prior)
            },
            ThreadGuard::Active(t) => {
                if t == thread_id {
                    Ok(prior)
                } else {
                    Err(Error::RuntimeSignaledError)
                }
            },
        }
    }

    /// Close a single-threaded scope, restoring the guard state that
    /// [`Engine::single_threaded_begin`] handed out.
    pub fn single_threaded_end(&mut self, prior: ThreadGuard)
        ensures
            final(self).guard == prior,
            final(self).heap@ == old(self).heap@,
            final(self).protect@ == old(self).protect@,
            final(self).methods@ == old(self).methods@,
            final(self).registered == old(self).registered,
            final(self).output@ == old(self).output@,
            final(self).error_output@ == old(self).error_output@,
    {
        self.guard = prior;
    }
}

/// The protection stack after a number of releases, each deregistering the
/// current top — exactly what an accepted [`Engine::release`] does.
pub open spec fn protect_after_releases(p: Seq<usize>, n: nat) -> Seq<usize>
    decreases n,
{
    if n == 0 || p.len() == 0 {
        p
    } else {
        protect_after_releases(p.drop_last(), (n - 1) as nat)
    }
}

/// Protection is last-in-first-out: after any run of nested acquisitions
/// pushing the references `xs` on top of a stack `p`, releasing in exact
/// reverse order is accepted at every step — the reference acquired last
/// among those not yet released is always the top — and the run of
/// releases returns the stack to `p`, depth included.
pub proof fn lemma_protect_lifo(p: Seq<usize>, xs: Seq<usize>)
    ensures
        protect_after_releases(p + xs, xs.len()) == p,
        forall|i: int|
            0 <= i < xs.len() ==> (#[trigger] protect_after_releases(p + xs, i as nat)).len() > 0
                && protect_after_releases(p + xs, i as nat).last() == xs[xs.len() - 1 - i],
    decreases xs.len(),
{
    if xs.len() == 0 {
        assert(p + xs =~= p);
    } else {
        let xs1 = xs.drop_last();
        assert((p + xs).drop_last() =~= p + xs1);
        lemma_protect_lifo(p, xs1);
        assert(protect_after_releases(p + xs, xs.len()) == protect_after_releases(
            p + xs1,
            xs1.len(),
        ));
        assert forall|i: int| 0 <= i < xs.len() implies (#[trigger] protect_after_releases(
            p + xs,
            i as nat,
        )).len() > 0 && protect_after_releases(p + xs, i as nat).last() == xs[xs.len() - 1
            - i] by {
            if i == 0 {
                assert(protect_after_releases(p + xs, 0) == p + xs);
                assert((p + xs).last() == xs.last());
            } else {
                assert(protect_after_releases(p + xs, i as nat) == protect_after_releases(
                    p + xs1,
                    (i - 1) as nat,
                ));
            }
        }
    }
}

/// Whether a byte buffer can travel to the host console as a C string:
/// no interior NUL before the intended terminator.
pub open spec fn nul_free(s: Seq<u8>) -> bool {
    forall|i: int| 0 <= i < s.len() ==> s[i] != 0
}

/// Check a buffer for interior NUL bytes.
pub fn is_nul_free(s: &Vec<u8>) -> (r: bool)
    ensures
        r == nul_free(s@),
{
    let mut i: usize = 0;
    while i < s.len()
        invariant
            i <= s@.len(),
            forall|j: int| 0 <= j < i ==> s@[j] != 0,
        decreases s@.len() - i,
    {
        if s[i] == 0 {
            return false;
        }
        i += 1;
    }
    true
}

/// Hand a byte buffer to the host's standard output stream.  The host call
/// takes a C string, so a buffer with an interior NUL is malformed and must
/// be rejected locally before this point.
pub fn print_r_output(e: &mut Engine, s: &Vec<u8>)
    requires
        nul_free(s@),
        old(e).output@.len() + s@.len() <= usize::MAX,
    ensures
        final(e).output@ == old(e).output@ + s@,
        final(e).heap@ == old(e).heap@,
        final(e).protect@ == old(e).protect@,
        final(e).guard == old(e).guard,
        final(e).methods@ == old(e).methods@,
        final(e).registered == old(e).registered,
        final(e).error_output@ == old(e).error_output@,
{
    let mut i: usize = 0;
    while i < s.len()
        invariant
            i <= s@.len(),
            e.output@ == old(e).output@ + s@.subrange(0, i as int),
            e.output@.len() <= usize::MAX,
            old(e).output@.len() + s@.len() <= usize::MAX,
            e.heap@ == old(e).heap@,
            e.protect@ == old(e).protect@,
            e.guard == old(e).guard,
            e.methods@ == old(e).methods@,
            e.registered == old(e).registered,
            e.error_output@ == old(e).error_output@,
        decreases s@.len() - i,
    {
        e.output.push(s[i]);
        proof {
            assert(e.output@ =~= old(e).output@ + s@.subrange(0, i + 1 as int));
        }
        i += 1;
    }
    proof {
        assert(s@.subrange(0, s@.len() as int) =~= s@);
    }
}

/// Hand a byte buffer to the host's standard error stream; the same local
/// NUL rejection as for standard output.
pub fn print_r_error(e: &mut Engine, s: &Vec<u8>)
    requires
        nul_free(s@),
        old(e).error_output@.len() + s@.len() <= usize::MAX,
    ensures
        final(e).error_output@ == old(e).error_output@ + s@,
        final(e).heap@ == old(e).heap@,
        final(e).protect@ == old(e).protect@,
        final(e).guard == old(e).guard,
        final(e).methods@ == old(e).methods@,
        final(e).registered == old(e).registered,
        final(e).output@ == old(e).output@,
{
    let mut i: usize = 0;
    while i < s.len()
        invariant
            i <= s@.len(),
            e.error_output@ == old(e).error_output@ + s@.subrange(0, i as int),
            e.error_output@.len() <= usize::MAX,
            old(e).error_output@.len() + s@.len() <= usize::MAX,
            e.heap@ == old(e).heap@,
            e.protect@ == old(e).protect@,
            e.guard == old(e).guard,
            e.methods@ == old(e).methods@,
            e.registered == old(e).registered,
            e.output@ == old(e).output@,
        decreases s@.len() - i,
    {
        e.error_output.push(s[i]);
        proof {
            assert(e.error_output@ =~= old(e).error_output@ + s@.subrange(0, i + 1 as int));
        }
        i += 1;
    }
    proof {
        assert(s@.subrange(0, s@.len() as int) =~= s@);
    }
}

} // verus!
