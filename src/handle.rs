//! A GPU object name together with the cached belief that it is bound.

use vstd::prelude::*;
use crate::driver::{BindTarget, DriverCall};

verus! {

/// An object name handed out by the driver and whether this value believes
/// the object currently occupies its binding point.
///
/// The flag is a local cache, never read back from the driver.
#[derive(Clone, Copy, Debug, PartialEq, Eq, Structural)]
pub struct GpuObject {
    pub id: u32,
    pub bound: bool,
}

/// A freshly allocated object: nothing has bound it yet.
pub open spec fn fresh(id: u32) -> GpuObject {
    GpuObject { id, bound: false }
}

/// The object after a bind.
pub open spec fn bound(o: GpuObject) -> GpuObject {
    GpuObject { id: o.id, bound: true }
}

/// The object after an unbind.
pub open spec fn unbound(o: GpuObject) -> GpuObject {
    GpuObject { id: o.id, bound: false }
}

/// What binding `o` at `t` issues: one bind call, or nothing if `o` is bound already.
pub open spec fn bind_calls(o: GpuObject, t: BindTarget) -> Seq<DriverCall> {
    if o.bound {
        seq![]
    } else {
        seq![DriverCall::Bind { target: t, id: o.id }]
    }
}

/// What unbinding `o` at `t` issues: emptying the binding point, or nothing if `o` is not bound.
pub open spec fn unbind_calls(o: GpuObject, t: BindTarget) -> Seq<DriverCall> {
    if o.bound {
        seq![DriverCall::Bind { target: t, id: 0 }]
    } else {
        seq![]
    }
}

/// What releasing `o` issues: an unbind if it is bound, then the delete.
pub open spec fn release_calls(o: GpuObject, t: BindTarget) -> Seq<DriverCall> {
    unbind_calls(o, t) + seq![DriverCall::Delete { target: t, id: o.id }]
}

impl GpuObject {
    /// Wraps a name that the driver has just allocated.
    pub fn new(id: u32) -> (r: GpuObject)
        ensures
            r == fresh(id),
    {
        GpuObject { id, bound: false }
    }

    /// Binds the object at `target` unless the cached flag says it is there already.
    pub fn bind(&mut self, target: BindTarget, calls: &mut Vec<DriverCall>)
        ensures
            *final(self) == bound(*old(self)),
            final(calls)@ == old(calls)@ + bind_calls(*old(self), target),
    {
        if !self.bound {
            calls.push(DriverCall::Bind { target, id: self.id });
            self.bound = true;
        }
    }

    /// Empties `target` if the cached flag says this object occupies it.
    pub fn unbind(&mut self, target: BindTarget, calls: &mut Vec<DriverCall>)
        ensures
            *final(self) == unbound(*old(self)),
            final(calls)@ == old(calls)@ + unbind_calls(*old(self), target),
    {
        if self.bound {
            calls.push(DriverCall::Bind { target, id: 0 });
            self.bound = false;
        }
    }

    /// Unbinds the object if it is bound, then releases its name.
    pub fn release(self, target: BindTarget, calls: &mut Vec<DriverCall>)
        ensures
            final(calls)@ == old(calls)@ + release_calls(self, target),
    {
        let mut o = self;
        o.unbind(target, calls);
        calls.push(DriverCall::Delete { target, id: o.id });
    }
}

/// Binding an object twice in a row issues a single bind call: the second
/// bind finds the cached flag set and does nothing.
pub proof fn bind_twice_binds_once(o: GpuObject, t: BindTarget)
    ensures
        bind_calls(o, t) + bind_calls(bound(o), t) == bind_calls(o, t),
        bind_calls(bound(o), t) == Seq::<DriverCall>::empty(),
        bind_calls(o, t).len() <= 1,
        !o.bound ==> bind_calls(o, t) == seq![DriverCall::Bind { target: t, id: o.id }],
        bound(bound(o)) == bound(o),
{
    assert(bind_calls(o, t) + bind_calls(bound(o), t) =~= bind_calls(o, t));
}

/// Unbinding twice in a row issues at most one call, as binding does.
pub proof fn unbind_twice_unbinds_once(o: GpuObject, t: BindTarget)
    ensures
        unbind_calls(o, t) + unbind_calls(unbound(o), t) == unbind_calls(o, t),
        unbind_calls(unbound(o), t) == Seq::<DriverCall>::empty(),
        unbound(unbound(o)) == unbound(o),
{
    assert(unbind_calls(o, t) + unbind_calls(unbound(o), t) =~= unbind_calls(o, t));
}

} // verus!
