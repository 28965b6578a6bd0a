//! Lazily initialized values.
//!
//! A [`Lazy`] holds a zero-argument producer and defers running it until the
//! value is first requested; the result is then cached and returned on every
//! later request, so the producer runs at most once over the instance's
//! lifetime.

use vstd::prelude::*;

verus! {

/// A deferred computation: stores a producer and, once the value has been
/// requested, the single value that the producer returned.
#[verifier::reject_recursive_types(T)]
pub struct Lazy<T, F> where F: Fn() -> T {
    t: Option<T>,
    f: F,
}

impl<T, F> Lazy<T, F> where F: Fn() -> T {
    /// True once the value has been computed and cached.
    pub closed spec fn is_filled(self) -> bool {
        self.t is Some
    }

    /// The cached value; meaningful only once `is_filled` holds.
    pub closed spec fn cached(self) -> T
        recommends
            self.is_filled(),
    {
        self.t->0
    }

    /// The stored producer. It is fixed at construction and never replaced.
    pub closed spec fn producer(self) -> F {
        self.f
    }

    /// Creates a new lazy value to be initialized using the provided
    /// function. Construction stores the producer without running it: the
    /// slot starts empty.
    pub fn new(f: F) -> (lazy: Lazy<T, F>)
        ensures
            !lazy.is_filled(),
            lazy.producer() == f,
    {
        Lazy { t: None, f }
    }

    /// Everything one access guarantees: `pre` is the instance before the
    /// call, `post` after it, and `r` the returned value. Afterwards the
    /// slot is filled with `r` and the producer is unchanged; an already
    /// filled instance is left exactly as it was and yields its cached
    /// value, while a first access yields a value the producer can return.
    pub open spec fn value_post(pre: Self, post: Self, r: T) -> bool {
        &&& post.is_filled()
        &&& r == post.cached()
        &&& post.producer() == pre.producer()
        &&& pre.is_filled() ==> post == pre && r == pre.cached()
        &&& !pre.is_filled() ==> call_ensures(pre.producer(), (), r)
    }

    /// Returns a reference to the lazily-initialized value. On the first
    /// access the producer is invoked once and its result is stored; every
    /// later access returns the stored value without invoking the producer
    /// again. Should the producer panic, the panic propagates unchanged,
    /// the slot stays empty, and the next access tries again.
    pub fn value(&mut self) -> (r: &T)
        requires
            !old(self).is_filled() ==> call_requires(old(self).producer(), ()),
        ensures
            Self::value_post(*old(self), *final(self), *r),
    {
        if self.t.is_none() {
            let v = (self.f)();
            self.t = Some(v);
        }
        self.t.as_ref().unwrap()
    }
}

/// Law: once the slot is filled, a further access changes nothing — it
/// returns the cached value and leaves the instance exactly as it was, so
/// the producer is never consulted again.
pub proof fn lemma_value_idempotent<T, F: Fn() -> T>(
    pre: Lazy<T, F>,
    post: Lazy<T, F>,
    r: T,
)
    requires
        pre.is_filled(),
        Lazy::value_post(pre, post, r),
    ensures
        post == pre,
        r == pre.cached(),
{
}

/// Law: starting from a freshly constructed instance, any number of
/// accesses amounts to a single producer invocation. `states` are the
/// successive instance states, `results[i]` the value the access from
/// `states[i]` to `states[i + 1]` returned. The first result is one the
/// producer can return, every access returns that same value, and from the
/// first access on the slot stays filled with it while the producer stays
/// the one construction stored.
pub proof fn lemma_single_invocation<T, F: Fn() -> T>(
    states: Seq<Lazy<T, F>>,
    results: Seq<T>,
)
    requires
        states.len() == results.len() + 1,
        results.len() >= 1,
        !states[0].is_filled(),
        forall|i: int|
            0 <= i < results.len() ==> #[trigger] Lazy::value_post(
                states[i],
                states[i + 1],
                results[i],
            ),
    ensures
        call_ensures(states[0].producer(), (), results[0]),
        forall|i: int| 0 <= i < results.len() ==> #[trigger] results[i] == results[0],
        forall|i: int|
            1 <= i < states.len() ==> (#[trigger] states[i]).is_filled()
                && states[i].cached() == results[0]
                && states[i].producer() == states[0].producer(),
    decreases results.len(),
{
    let n = results.len() as int;
    if n == 1 {
        let i: int = 0;
        assert(Lazy::value_post(states[i], states[i + 1], results[i]));
    } else {
        let head_states = states.drop_last();
        let head_results = results.drop_last();
        assert(forall|i: int| 0 <= i < n ==> head_states[i] == states[i]);
        assert(forall|i: int| 0 <= i < n - 1 ==> head_results[i] == results[i]);
        assert forall|i: int|
            0 <= i < head_results.len() implies #[trigger] Lazy::value_post(
                head_states[i],
                head_states[i + 1],
                head_results[i],
            ) by {
            assert(Lazy::value_post(states[i], states[i + 1], results[i]));
        }
        lemma_single_invocation(head_states, head_results);
        assert(states[n - 1].is_filled());
        assert(Lazy::value_post(states[n - 1], states[n], results[n - 1]));
    }
}

} // verus!
