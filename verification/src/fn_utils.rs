use vstd::prelude::*;

verus! {

/// A replaceable callback: empty at first, then holding the callback last
/// given to [`FnCell::update`]. It keeps count of how many times a held
/// callback has been called through it.
pub struct FnCell<F> {
    inner: Option<F>,
    delivered: Ghost<nat>,
}

impl<F> FnCell<F> {
    /// The callback held, if any.
    pub closed spec fn callback(&self) -> Option<F> {
        self.inner
    }

    /// How many calls have reached a held callback since the cell was made.
    pub closed spec fn deliveries(&self) -> nat {
        self.delivered@
    }

    /// Whether calling the cell with `ctx` and `arg` is allowed: it is when
    /// the cell is empty, or when the callback held accepts them.
    pub open spec fn accepts<C, A>(&self, ctx: &C, arg: A) -> bool where F: Fn(&C, A) {
        match self.callback() {
            None => true,
            Some(f) => call_requires(f, (ctx, arg)),
        }
    }

    /// An empty cell.
    pub fn new() -> (r: Self)
        ensures
            r.callback() is None,
            r.deliveries() == 0,
    {
        FnCell { inner: None, delivered: Ghost(0) }
    }

    /// Replaces the callback held by `f`.
    pub fn update(&mut self, f: F)
        ensures
            final(self).callback() == Some(f),
            final(self).deliveries() == old(self).deliveries(),
    {
        self.inner = Some(f);
    }

    /// Calls the callback held, if any, once with `ctx` and `arg`; an empty
    /// cell does nothing.
    pub fn call<C, A>(&mut self, ctx: &C, arg: A)
        where F: Fn(&C, A)
        requires
            old(self).accepts(ctx, arg),
        ensures
            final(self).callback() == old(self).callback(),
            final(self).deliveries() == old(self).deliveries() + if old(self).callback() is Some {
                1nat
            } else {
                0nat
            },
            old(self).callback() matches Some(f) ==> call_ensures(f, (ctx, arg), ()),
    {
        match &self.inner {
            Some(f) => {
                f(ctx, arg);
                proof {
                    self.delivered = Ghost(self.delivered@ + 1);
                }
            },
            None => {},
        }
    }
}

/// Where the context of a [`ContextCallback`] stands: not given yet, given and
/// still alive, or released by its owner.
pub enum ContextSlot<C> {
    Unset,
    Live(C),
    Released,
}

/// A callback around `f` whose context is not given yet.
pub fn new_context_callback<C, F>(f: F) -> (r: ContextCallback<C, F>)
    ensures
        r.slot() is Unset,
        r.function() == f,
{
    ContextCallback { context: ContextSlot::Unset, f }
}

/// A callback that is created before its context exists: the context is
/// given later with [`ContextCallback::set_context`]; once the owner of the
/// context has released it, calls are ignored.
pub struct ContextCallback<C, F> {
    context: ContextSlot<C>,
    f: F,
}

impl<C, F> ContextCallback<C, F> {
    pub closed spec fn slot(&self) -> ContextSlot<C> {
        self.context
    }

    pub closed spec fn function(&self) -> F {
        self.f
    }

    /// Gives the context the callback is called with.
    pub fn set_context(&mut self, ctx: C)
        ensures
            final(self).slot() == ContextSlot::Live(ctx),
            final(self).function() == old(self).function(),
    {
        self.context = ContextSlot::Live(ctx);
    }

    /// Whether the context has been given (it may have been released since).
    pub fn context_given(&self) -> (r: bool)
        ensures
            r == !(self.slot() is Unset),
    {
        match self.context {
            ContextSlot::Unset => false,
            _ => true,
        }
    }

    /// Records that the owner of the context has released it: later calls do
    /// nothing.
    pub fn release_context(&mut self)
        ensures
            final(self).slot() is Released,
            final(self).function() == old(self).function(),
    {
        self.context = ContextSlot::Released;
    }

    /// Calls the function with the context and `arg`; does nothing once the
    /// context is released. Calling before the context is given is a misuse.
    pub fn call<A>(&self, arg: A) -> (called: bool)
        where F: Fn(&C, A)
        requires
            !(self.slot() is Unset),
            self.slot() matches ContextSlot::Live(c) ==> call_requires(self.function(), (&c, arg)),
        ensures
            called == (self.slot() is Live),
            self.slot() matches ContextSlot::Live(c) ==> call_ensures(self.function(), (&c, arg), ()),
    {
        match &self.context {
            ContextSlot::Live(c) => {
                (self.f)(c, arg);
                true
            },
            _ => false,
        }
    }
}

} // verus!
