//! The middleware chain protocol: an ordered sequence of handler units, each
//! consuming the same mutable request and response plus a shared value store,
//! each returning a [`Signal`] that decides whether the chain moves on to the
//! next unit or unwinds straight to the finalizing handlers.

use vstd::prelude::*;

verus! {

/// The control signal a handler returns: proceed to the next handler, or
/// stop forward iteration and go straight to response finalization.
#[derive(Clone, Copy, Debug, PartialEq, Eq, Structural)]
pub enum Signal {
    Continue,
    Unwind,
}

/// The shared side-channel value store handed to every handler of a request:
/// a mutable word-to-word map the handlers compose through.
pub struct Alloy {
    entries: Vec<(u64, u64)>,
}

/// The map a row of insertions denotes: a later insertion shadows an earlier
/// one of the same key.
pub open spec fn as_map(entries: Seq<(u64, u64)>) -> Map<u64, u64>
    decreases entries.len(),
{
    if entries.len() == 0 {
        Map::empty()
    } else {
        as_map(entries.drop_last()).insert(entries.last().0, entries.last().1)
    }
}

/// An entry row with no row of key `k` at position `i` or later binds `k`
/// exactly as its first `i` rows do.
proof fn lemma_as_map_suffix_free(entries: Seq<(u64, u64)>, k: u64, i: int)
    requires
        0 <= i <= entries.len(),
        forall|j: int| i <= j < entries.len() ==> (#[trigger] entries[j]).0 != k,
    ensures
        as_map(entries).contains_key(k) == as_map(entries.subrange(0, i)).contains_key(k),
        as_map(entries).contains_key(k) ==> as_map(entries)[k] == as_map(entries.subrange(0, i))[k],
    decreases entries.len() - i,
{
    if i < entries.len() {
        let shorter = entries.drop_last();
        assert(entries.subrange(0, i) =~= shorter.subrange(0, i));
        lemma_as_map_suffix_free(shorter, k, i);
    } else {
        assert(entries.subrange(0, entries.len() as int) =~= entries);
    }
}

impl View for Alloy {
    type V = Map<u64, u64>;

    closed spec fn view(&self) -> Map<u64, u64> {
        as_map(self.entries@)
    }
}

impl Alloy {
    /// An empty store.
    pub fn new() -> (a: Alloy)
        ensures
            a@ == Map::<u64, u64>::empty(),
    {
        Alloy { entries: Vec::new() }
    }

    /// Bind `k` to `v`, shadowing any earlier binding of `k`.
    pub fn insert(&mut self, k: u64, v: u64)
        ensures
            final(self)@ == old(self)@.insert(k, v),
    {
        self.entries.push((k, v));
        proof {
            assert(self.entries@.drop_last() =~= old(self).entries@);
        }
    }

    /// The value `k` is bound to, if any.
    pub fn find(&self, k: u64) -> (r: Option<u64>)
        ensures
            match r {
                Some(v) => self@.contains_key(k) && self@[k] == v,
                None => !self@.contains_key(k),
            },
    {
        let n = self.entries.len();
        let mut i: usize = n;
        while i > 0
            invariant
                0 <= i <= n,
                n == self.entries@.len(),
                forall|j: int| i <= j < n ==> (#[trigger] self.entries@[j]).0 != k,
            decreases i,
        {
            i -= 1;
            let entry = self.entries[i];
            if entry.0 == k {
                proof {
                    lemma_as_map_suffix_free(self.entries@, k, i + 1);
                    let upto = self.entries@.subrange(0, i + 1);
                    assert(upto.drop_last() =~= self.entries@.subrange(0, i as int));
                    assert(upto.last() == self.entries@[i as int]);
                }
                return Some(entry.1);
            }
        }
        proof {
            lemma_as_map_suffix_free(self.entries@, k, 0);
            assert(self.entries@.subrange(0, 0) =~= Seq::<(u64, u64)>::empty());
        }
        None
    }
}

/// One link of the chain: a capability that, given the request, the response
/// and the shared store, does its work by side effect and returns a
/// [`Signal`]. Function-shaped and struct-shaped handlers alike implement
/// this; a handler may assume nothing beyond its own invocation.
pub trait Middleware {
    /// The transport's request type.
    type Req;

    /// The transport's response type.
    type Res;

    /// Handle one request: read or modify the shared state, then signal
    /// whether the chain should continue or unwind.
    fn handle(&self, req: &mut Self::Req, res: &mut Self::Res, alloy: &mut Alloy) -> Signal;
}

/// The mutable configuration phase of a chain: handlers are linked in the
/// order they will later be invoked in, then [`ChainBuilder::build`] freezes
/// the chain for serving.
pub struct ChainBuilder<H> {
    links: Vec<H>,
    outer: Vec<H>,
}

impl<H> ChainBuilder<H> {
    /// The sequence of main handlers linked so far.
    pub closed spec fn links(&self) -> Seq<H> {
        self.links@
    }

    /// The sequence of finalizing handlers linked so far.
    pub closed spec fn outer(&self) -> Seq<H> {
        self.outer@
    }

    /// A builder with no handlers yet.
    pub fn new() -> (b: ChainBuilder<H>)
        ensures
            b.links() == Seq::<H>::empty(),
            b.outer() == Seq::<H>::empty(),
    {
        ChainBuilder { links: Vec::new(), outer: Vec::new() }
    }

    /// Append a handler to the main sequence. Order of linking is order of
    /// invocation.
    pub fn link(&mut self, handler: H)
        ensures
            final(self).links() == old(self).links().push(handler),
            final(self).outer() == old(self).outer(),
    {
        self.links.push(handler);
    }

    /// Append a finalizing handler: one that runs after the main sequence,
    /// wherever that sequence stopped.
    pub fn link_outer(&mut self, handler: H)
        ensures
            final(self).links() == old(self).links(),
            final(self).outer() == old(self).outer().push(handler),
    {
        self.outer.push(handler);
    }

    /// Freeze the builder into a chain; the link order is fixed from here on.
    pub fn build(self) -> (c: Chain<H>)
        ensures
            c.links() == self.links(),
            c.outer() == self.outer(),
    {
        Chain { links: self.links, outer: self.outer }
    }
}

/// An immutable chain of handlers: the main sequence, then the finalizing
/// sequence. Built once at configuration time and shared by every request
/// thereafter.
pub struct Chain<H> {
    links: Vec<H>,
    outer: Vec<H>,
}

impl<H> Chain<H> {
    /// The main sequence, in invocation order.
    pub closed spec fn links(&self) -> Seq<H> {
        self.links@
    }

    /// The finalizing sequence, in invocation order.
    pub closed spec fn outer(&self) -> Seq<H> {
        self.outer@
    }
}

impl<H: Middleware> Chain<H> {
    /// Drive one request through the chain: invoke the main handlers in link
    /// order until the first unwind signal (or the end), then invoke every
    /// finalizing handler regardless of where the main sequence stopped.
    ///
    /// Returns the signals collected from the main sequence and from the
    /// finalizing sequence, in invocation order: every main-sequence signal
    /// before the last is a continue (the first unwind ends the walk), a walk
    /// that stopped short of the end ends in an unwind, and the finalizers'
    /// log has one signal per finalizing handler — none of them is skipped.
    pub fn dispatch(&self, req: &mut H::Req, res: &mut H::Res, alloy: &mut Alloy) -> (t: (
        Vec<Signal>,
        Vec<Signal>,
    ))
        ensures
            t.0@.len() <= self.links().len(),
            self.links().len() > 0 ==> t.0@.len() > 0,
            forall|i: int| 0 <= i < t.0@.len() - 1 ==> t.0@[i] is Continue,
            t.0@.len() < self.links().len() ==> t.0@[t.0@.len() - 1] is Unwind,
            t.1@.len() == self.outer().len(),
    {
        let mut entered: Vec<Signal> = Vec::new();
        let mut unwound = false;
        let mut i: usize = 0;
        while i < self.links.len() && !unwound
            invariant
                0 <= i <= self.links@.len(),
                entered@.len() == i,
                forall|j: int| 0 <= j < entered@.len() - 1 ==> entered@[j] is Continue,
                !unwound ==> forall|j: int| 0 <= j < entered@.len() ==> entered@[j] is Continue,
                unwound ==> entered@.len() > 0 && entered@[entered@.len() - 1] is Unwind,
            decreases self.links@.len() - i,
        {
            let signal = self.links[i].handle(req, res, alloy);
            entered.push(signal);
            if matches!(signal, Signal::Unwind) {
                unwound = true;
            }
            i += 1;
        }
        let mut finalized: Vec<Signal> = Vec::new();
        let mut j: usize = 0;
        while j < self.outer.len()
            invariant
                0 <= j <= self.outer@.len(),
                finalized@.len() == j,
            decreases self.outer@.len() - j,
        {
            let signal = self.outer[j].handle(req, res, alloy);
            finalized.push(signal);
            j += 1;
        }
        (entered, finalized)
    }
}

} // verus!
