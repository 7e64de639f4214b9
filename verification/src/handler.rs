//! Application-facing handler and event slots: boxed callbacks that the
//! window builder registers and the adapters fire.
//!
//! An event slot (`EventParam`, `EventMutParam`) carries any number of
//! callbacks, each under a numeric registration id that is never reused, so
//! a callback can be removed again. A handler slot (`Handler`,
//! `HandlerParam`, `HandlerMut`, `HandlerMutParam`) carries at most one
//! callback whose result the caller consumes.
//!
//! Callbacks are held as trait objects with a contracted `call` method; any
//! plain closure of the right shape implements the trait through a blanket
//! impl, so `slot.add(Box::new(|n| ...))` works as usual.

use vstd::prelude::*;
use vstd::assert_seqs_equal;

verus! {

/// A callback taking one integer. Implemented by every `Fn(i32)` closure.
pub trait EventFn {
    spec fn pre(&self, n: i32) -> bool;

    fn call(&self, n: i32)
        requires
            self.pre(n),
    ;
}

impl<F: Fn(i32) -> ()> EventFn for F {
    open spec fn pre(&self, n: i32) -> bool {
        call_requires(*self, (n,))
    }

    fn call(&self, n: i32) {
        (*self)(n)
    }
}

/// A callback producing one integer. Implemented by every `Fn() -> i32`
/// closure.
pub trait HandlerFn {
    spec fn pre(&self) -> bool;

    fn call(&self) -> i32
        requires
            self.pre(),
    ;
}

impl<F: Fn() -> i32> HandlerFn for F {
    open spec fn pre(&self) -> bool {
        call_requires(*self, ())
    }

    fn call(&self) -> i32 {
        (*self)()
    }
}

/// A callback combining an integer and a string into a new string.
/// Implemented by every `Fn(i32, &str) -> String` closure.
pub trait HandlerParamFn {
    spec fn pre(&self, n: i32, s: &str) -> bool;

    fn call(&self, n: i32, s: &str) -> String
        requires
            self.pre(n, s),
    ;
}

impl<F: for<'a> Fn(i32, &'a str) -> String> HandlerParamFn for F {
    open spec fn pre(&self, n: i32, s: &str) -> bool {
        call_requires(*self, (n, s))
    }

    fn call(&self, n: i32, s: &str) -> String {
        (*self)(n, s)
    }
}

/// The position of a registration id in the slot's id sequence, or the
/// length when it is absent.
pub open spec fn find_id(s: Seq<usize>, id: usize) -> int
    decreases s.len(),
{
    if s.len() == 0 {
        0
    } else if s[0] == id {
        0
    } else {
        1 + find_id(s.subrange(1, s.len() as int), id)
    }
}

proof fn lemma_find_id_at(s: Seq<usize>, id: usize, i: int)
    requires
        0 <= i < s.len(),
        s[i] == id,
        forall|j: int| 0 <= j < i ==> s[j] != id,
    ensures
        s.contains(id),
        find_id(s, id) == i,
    decreases s.len(),
{
    if i > 0 {
        let rest = s.subrange(1, s.len() as int);
        assert(rest[i - 1] == s[i]);
        assert(forall|j: int| 0 <= j < i - 1 ==> rest[j] == s[j + 1]);
        lemma_find_id_at(rest, id, i - 1);
        assert(s[i] == id);
    } else {
        assert(s[0] == id);
    }
}

proof fn lemma_find_id_absent(s: Seq<usize>, id: usize)
    requires
        forall|j: int| 0 <= j < s.len() ==> s[j] != id,
    ensures
        !s.contains(id),
{
    if s.contains(id) {
        let i = choose|i: int| 0 <= i < s.len() && s[i] == id;
        assert(false);
    }
}

/// One registered callback, guaranteed by its type invariant to accept
/// every argument, so firing it needs no further proof.
struct EventSlot {
    f: Box<dyn EventFn>,
}

impl EventSlot {
    #[verifier::type_invariant]
    spec fn inv(self) -> bool {
        forall|n: i32| self.f.pre(n)
    }

    fn new(f: Box<dyn EventFn>) -> (r: EventSlot)
        requires
            forall|n: i32| f.pre(n),
    {
        EventSlot { f }
    }

    fn call(&self, n: i32) {
        proof {
            use_type_invariant(&*self);
        }
        self.f.call(n);
    }
}

/// An event slot taking one integer, fired through `&self`: any number of
/// callbacks, each under a fresh registration id. The id list is the
/// slot's visible state; ids are never reused.
pub struct EventParam {
    ids_v: Vec<usize>,
    cbs: Vec<EventSlot>,
    next_id: usize,
}

impl EventParam {
    /// The registration ids currently present, in registration order.
    pub closed spec fn ids(&self) -> Seq<usize> {
        self.ids_v@
    }

    /// The id the next registration will get.
    pub closed spec fn next(&self) -> usize {
        self.next_id
    }

    /// Ids are pairwise distinct and all below the counter.
    pub closed spec fn wf(&self) -> bool {
        &&& forall|i: int| 0 <= i < self.ids_v@.len() ==> #[trigger] self.ids_v@[i] < self.next_id
        &&& forall|i: int, j: int|
            #![trigger self.ids_v@[i], self.ids_v@[j]]
            0 <= i < self.ids_v@.len() && 0 <= j < self.ids_v@.len() && i != j ==> self.ids_v@[i]
                != self.ids_v@[j]
    }

    pub fn new() -> (r: EventParam)
        ensures
            r.ids() == Seq::<usize>::empty(),
            r.next() == 0,
            r.wf(),
    {
        EventParam { ids_v: Vec::new(), cbs: Vec::new(), next_id: 0 }
    }

    pub fn new_with(handler: Box<dyn EventFn>) -> (r: EventParam)
        requires
            forall|n: i32| handler.pre(n),
        ensures
            r.ids().len() == 1,
            r.wf(),
    {
        let mut r = EventParam::new();
        r.add(handler);
        r
    }

    pub fn is_empty(&self) -> (r: bool)
        ensures
            r == (self.ids().len() == 0),
    {
        self.ids_v.is_empty()
    }

    pub fn len(&self) -> (r: usize)
        ensures
            r == self.ids().len(),
    {
        self.ids_v.len()
    }

    /// Register one callback under a fresh id, which is returned so the
    /// callback can be removed again.
    pub fn add(&mut self, h: Box<dyn EventFn>) -> (id: usize)
        requires
            old(self).wf(),
            old(self).next() < usize::MAX,
            forall|n: i32| h.pre(n),
        ensures
            final(self).wf(),
            id == old(self).next(),
            !old(self).ids().contains(id),
            final(self).ids() == old(self).ids().push(id),
            final(self).next() > old(self).next(),
    {
        let id = self.next_id;
        self.next_id = self.next_id + 1;
        self.ids_v.push(id);
        self.cbs.push(EventSlot::new(h));
        proof {
            if old(self).ids().contains(id) {
                let i = choose|i: int| 0 <= i < old(self).ids().len() && old(self).ids()[i] == id;
                assert(old(self).ids_v@[i] == id);
                assert(false);
            }
        }
        id
    }

    /// Unregister the callback with this id. Whether one was present is
    /// returned; an absent id changes nothing.
    pub fn remove(&mut self, id: usize) -> (r: bool)
        requires
            old(self).wf(),
        ensures
            final(self).wf(),
            r == old(self).ids().contains(id),
            r ==> final(self).ids() == old(self).ids().remove(find_id(old(self).ids(), id)),
            !r ==> final(self).ids() == old(self).ids(),
            final(self).next() == old(self).next(),
    {
        let n = self.ids_v.len();
        let mut i: usize = 0;
        while i < n
            invariant
                old(self).wf(),
                n == self.ids_v@.len(),
                0 <= i <= n,
                *self == *old(self),
                forall|j: int| 0 <= j < i ==> old(self).ids()[j] != id,
            decreases n - i,
        {
            if self.ids_v[i] == id {
                proof {
                    assert(old(self).ids()[i as int] == id);
                    lemma_find_id_at(old(self).ids(), id, i as int);
                }
                self.ids_v.remove(i);
                if i < self.cbs.len() {
                    self.cbs.remove(i);
                }
                proof {
                    assert(self.ids() =~= old(self).ids().remove(i as int));
                    assert forall|k1: int, k2: int|
                        0 <= k1 < self.ids_v@.len() && 0 <= k2 < self.ids_v@.len() && k1
                            != k2 implies self.ids_v@[k1] != self.ids_v@[k2] by {
                        let m1: int = if k1 < i { k1 } else { k1 + 1 };
                        let m2: int = if k2 < i { k2 } else { k2 + 1 };
                        assert(self.ids_v@[k1] == old(self).ids_v@[m1]);
                        assert(self.ids_v@[k2] == old(self).ids_v@[m2]);
                        assert(old(self).ids_v@[m1] != old(self).ids_v@[m2]);
                    };
                    assert forall|k: int|
                        0 <= k < self.ids_v@.len() implies self.ids_v@[k] < self.next_id by {
                        let m: int = if k < i { k } else { k + 1 };
                        assert(self.ids_v@[k] == old(self).ids_v@[m]);
                        assert(old(self).ids_v@[m] < old(self).next_id);
                    };
                    assert(self.wf());
                }
                return true;
            }
            i = i + 1;
        }
        proof {
            lemma_find_id_absent(old(self).ids(), id);
        }
        false
    }

    /// Fire every registered callback, in registration order.
    pub fn fire(&self, n: i32) {
        let count = self.cbs.len();
        let mut i: usize = 0;
        while i < count
            invariant
                count == self.cbs@.len(),
                0 <= i <= count,
            decreases count - i,
        {
            let s = &self.cbs[i];
            s.call(n);
            i = i + 1;
        }
    }
}

/// The event slot variant whose `fire` takes `&mut self`, mirroring a
/// callback list registered for mutation-minded callers.
pub struct EventMutParam {
    inner: EventParam,
}

impl EventMutParam {
    pub closed spec fn ids(&self) -> Seq<usize> {
        self.inner.ids()
    }

    pub closed spec fn next(&self) -> usize {
        self.inner.next()
    }

    pub closed spec fn wf(&self) -> bool {
        self.inner.wf()
    }

    pub fn new() -> (r: EventMutParam)
        ensures
            r.ids() == Seq::<usize>::empty(),
            r.wf(),
    {
        EventMutParam { inner: EventParam::new() }
    }

    pub fn is_empty(&self) -> (r: bool)
        ensures
            r == (self.ids().len() == 0),
    {
        self.inner.is_empty()
    }

    pub fn len(&self) -> (r: usize)
        ensures
            r == self.ids().len(),
    {
        self.inner.len()
    }

    pub fn add(&mut self, h: Box<dyn EventFn>) -> (id: usize)
        requires
            old(self).wf(),
            old(self).next() < usize::MAX,
            forall|n: i32| h.pre(n),
        ensures
            final(self).wf(),
            id == old(self).next(),
            !old(self).ids().contains(id),
            final(self).ids() == old(self).ids().push(id),
    {
        self.inner.add(h)
    }

    pub fn remove(&mut self, id: usize) -> (r: bool)
        requires
            old(self).wf(),
        ensures
            final(self).wf(),
            r == old(self).ids().contains(id),
            !r ==> final(self).ids() == old(self).ids(),
    {
        self.inner.remove(id)
    }

    pub fn fire(&mut self, n: i32)
        requires
            old(self).wf(),
        ensures
            final(self).wf(),
            final(self).ids() == old(self).ids(),
    {
        self.inner.fire(n);
    }
}

/// A single-callback slot producing an integer, fired through `&self`.
pub struct Handler {
    handler: Option<Box<dyn HandlerFn>>,
}

impl Handler {
    pub closed spec fn spec_is_set(&self) -> bool {
        self.handler is Some
    }

    pub closed spec fn wf(&self) -> bool {
        self.handler matches Some(b) ==> b.pre()
    }

    pub fn new() -> (r: Handler)
        ensures
            !r.spec_is_set(),
            r.wf(),
    {
        Handler { handler: None }
    }

    pub fn new_with(handler: Box<dyn HandlerFn>) -> (r: Handler)
        requires
            handler.pre(),
        ensures
            r.spec_is_set(),
            r.wf(),
    {
        Handler { handler: Some(handler) }
    }

    pub fn is_set(&self) -> (r: bool)
        ensures
            r == self.spec_is_set(),
    {
        self.handler.is_some()
    }

    pub fn set(&mut self, handler: Option<Box<dyn HandlerFn>>)
        requires
            handler matches Some(b) ==> b.pre(),
        ensures
            final(self).wf(),
            final(self).spec_is_set() == (handler is Some),
    {
        self.handler = handler;
    }

    /// Fire the callback if one is set; its result comes back.
    pub fn fire(&self) -> (r: Option<i32>)
        requires
            self.wf(),
        ensures
            (r is Some) == self.spec_is_set(),
    {
        match &self.handler {
            Some(h) => Some(h.call()),
            None => None,
        }
    }

    /// Fire the callback if one is set, else hand the default back.
    pub fn fire_or(&self, def: i32) -> (r: i32)
        requires
            self.wf(),
        ensures
            !self.spec_is_set() ==> r == def,
    {
        match &self.handler {
            Some(h) => h.call(),
            None => def,
        }
    }
}

/// A single-callback slot combining an integer and a string into a new
/// string, fired through `&self`.
pub struct HandlerParam {
    handler: Option<Box<dyn HandlerParamFn>>,
}

impl HandlerParam {
    pub closed spec fn spec_is_set(&self) -> bool {
        self.handler is Some
    }

    pub closed spec fn wf(&self) -> bool {
        self.handler matches Some(b) ==> forall|n: i32, s: &str| b.pre(n, s)
    }

    pub fn new() -> (r: HandlerParam)
        ensures
            !r.spec_is_set(),
            r.wf(),
    {
        HandlerParam { handler: None }
    }

    pub fn new_with(handler: Box<dyn HandlerParamFn>) -> (r: HandlerParam)
        requires
            forall|n: i32, s: &str| handler.pre(n, s),
        ensures
            r.spec_is_set(),
            r.wf(),
    {
        HandlerParam { handler: Some(handler) }
    }

    pub fn is_set(&self) -> (r: bool)
        ensures
            r == self.spec_is_set(),
    {
        self.handler.is_some()
    }

    pub fn set(&mut self, handler: Option<Box<dyn HandlerParamFn>>)
        requires
            handler matches Some(b) ==> forall|n: i32, s: &str| b.pre(n, s),
        ensures
            final(self).wf(),
            final(self).spec_is_set() == (handler is Some),
    {
        self.handler = handler;
    }

    pub fn fire(&self, n: i32, s: &str) -> (r: Option<String>)
        requires
            self.wf(),
        ensures
            (r is Some) == self.spec_is_set(),
    {
        match &self.handler {
            Some(h) => Some(h.call(n, s)),
            None => None,
        }
    }

    pub fn fire_or(&self, def: String, n: i32, s: &str) -> (r: String)
        requires
            self.wf(),
        ensures
            !self.spec_is_set() ==> r == def,
    {
        match &self.handler {
            Some(h) => h.call(n, s),
            None => def,
        }
    }
}

/// The `Handler` variant fired through `&mut self`.
pub struct HandlerMut {
    inner: Handler,
}

impl HandlerMut {
    pub closed spec fn spec_is_set(&self) -> bool {
        self.inner.spec_is_set()
    }

    pub closed spec fn wf(&self) -> bool {
        self.inner.wf()
    }

    pub fn new() -> (r: HandlerMut)
        ensures
            !r.spec_is_set(),
            r.wf(),
    {
        HandlerMut { inner: Handler::new() }
    }

    pub fn is_set(&self) -> (r: bool)
        ensures
            r == self.spec_is_set(),
    {
        self.inner.is_set()
    }

    pub fn set(&mut self, handler: Option<Box<dyn HandlerFn>>)
        requires
            handler matches Some(b) ==> b.pre(),
        ensures
            final(self).wf(),
            final(self).spec_is_set() == (handler is Some),
    {
        self.inner.set(handler);
    }

    pub fn fire(&mut self) -> (r: Option<i32>)
        requires
            old(self).wf(),
        ensures
            *final(self) == *old(self),
            (r is Some) == old(self).spec_is_set(),
    {
        self.inner.fire()
    }

    pub fn fire_or(&mut self, def: i32) -> (r: i32)
        requires
            old(self).wf(),
        ensures
            *final(self) == *old(self),
            !old(self).spec_is_set() ==> r == def,
    {
        self.inner.fire_or(def)
    }
}

/// The `HandlerParam` variant fired through `&mut self`.
pub struct HandlerMutParam {
    inner: HandlerParam,
}

impl HandlerMutParam {
    pub closed spec fn spec_is_set(&self) -> bool {
        self.inner.spec_is_set()
    }

    pub closed spec fn wf(&self) -> bool {
        self.inner.wf()
    }

    pub fn new() -> (r: HandlerMutParam)
        ensures
            !r.spec_is_set(),
            r.wf(),
    {
        HandlerMutParam { inner: HandlerParam::new() }
    }

    pub fn is_set(&self) -> (r: bool)
        ensures
            r == self.spec_is_set(),
    {
        self.inner.is_set()
    }

    pub fn set(&mut self, handler: Option<Box<dyn HandlerParamFn>>)
        requires
            handler matches Some(b) ==> forall|n: i32, s: &str| b.pre(n, s),
        ensures
            final(self).wf(),
            final(self).spec_is_set() == (handler is Some),
    {
        self.inner.set(handler);
    }

    pub fn fire(&mut self, n: i32, s: &str) -> (r: Option<String>)
        requires
            old(self).wf(),
        ensures
            *final(self) == *old(self),
            (r is Some) == old(self).spec_is_set(),
    {
        self.inner.fire(n, s)
    }

    pub fn fire_or(&mut self, def: String, n: i32, s: &str) -> (r: String)
        requires
            old(self).wf(),
        ensures
            *final(self) == *old(self),
            !old(self).spec_is_set() ==> r == def,
    {
        self.inner.fire_or(def, n, s)
    }
}

} // verus!
