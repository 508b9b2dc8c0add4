//! The shutdown coordinator's registry of cleanup hooks: at most one per
//! component, all run together on termination within one shared timeout.

use vstd::prelude::*;

verus! {

/// How long termination waits for all cleanup hooks together, in milliseconds.
pub const SHUTDOWN_TIMEOUT_MS: u64 = 1000;

/// A long-lived component that may register a cleanup hook.
#[derive(Debug, Clone, Copy, PartialEq, Eq, Structural)]
pub enum Component {
    /// The heart-rate manager, which disconnects the current device.
    HeartRateManager,
    /// The csv logger, which saves what it has not written yet.
    CsvLogger,
}

/// The cleanup hooks registered so far, in registration order.
pub struct ShutdownRegistry {
    hooks: Vec<Component>,
    terminated: bool,
}

impl View for ShutdownRegistry {
    type V = Seq<Component>;

    closed spec fn view(&self) -> Seq<Component> {
        self.hooks@
    }
}

/// No component has two hooks.
pub open spec fn hooks_unique(hooks: Seq<Component>) -> bool {
    forall|i: int, j: int| 0 <= i < hooks.len() && 0 <= j < hooks.len() && i != j ==> hooks[i] != hooks[j]
}

/// The hooks after `component` offers one: added unless it has one already or
/// termination was triggered.
pub open spec fn registered_after(hooks: Seq<Component>, terminated: bool, component: Component) -> Seq<Component> {
    if terminated || hooks.contains(component) {
        hooks
    } else {
        hooks.push(component)
    }
}

/// The hooks that triggering termination starts.
pub open spec fn started_on_termination(hooks: Seq<Component>, terminated: bool) -> Seq<Component> {
    if terminated {
        Seq::empty()
    } else {
        hooks
    }
}

impl ShutdownRegistry {
    /// Whether termination has been triggered.
    pub closed spec fn is_terminated(&self) -> bool {
        self.terminated
    }

    /// The registry is well formed: every component has at most one hook.
    pub open spec fn wf(&self) -> bool {
        hooks_unique(self@)
    }

    /// An empty registry, not terminated.
    pub fn new() -> (r: ShutdownRegistry)
        ensures
            r@ == Seq::<Component>::empty(),
            !r.is_terminated(),
            r.wf(),
    {
        ShutdownRegistry { hooks: Vec::new(), terminated: false }
    }

    /// Registers the cleanup hook of `component`. A second registration from
    /// the same component, or one after termination, is rejected.
    pub fn register(&mut self, component: Component) -> (accepted: bool)
        ensures
            accepted == (!old(self)@.contains(component) && !old(self).is_terminated()),
            final(self)@ == registered_after(old(self)@, old(self).is_terminated(), component),
            final(self).is_terminated() == old(self).is_terminated(),
            old(self).wf() ==> final(self).wf(),
    {
        if self.terminated {
            return false;
        }
        let mut i: usize = 0;
        while i < self.hooks.len()
            invariant
                i <= self.hooks@.len(),
                forall|k: int| 0 <= k < i ==> self.hooks@[k] != component,
            decreases self.hooks@.len() - i,
        {
            if self.hooks[i] == component {
                assert(self.hooks@.contains(component));
                return false;
            }
            i += 1;
        }
        self.hooks.push(component);
        true
    }

    /// Triggers termination once: the first call hands out every registered
    /// hook, to be started together; later calls hand out none.
    pub fn terminate(&mut self) -> (to_run: Vec<Component>)
        ensures
            to_run@ == started_on_termination(old(self)@, old(self).is_terminated()),
            final(self).is_terminated(),
            final(self)@ == old(self)@,
    {
        if self.terminated {
            Vec::new()
        } else {
            self.terminated = true;
            self.hooks.clone()
        }
    }
}

/// Two different components that register with a fresh coordinator both
/// have their hooks started, each once, when termination is triggered.
pub proof fn lemma_both_hooks_run(a: Component, b: Component)
    requires
        a != b,
    ensures
        started_on_termination(
            registered_after(registered_after(Seq::empty(), false, a), false, b),
            false,
        ) == seq![a, b],
{
    let once = registered_after(Seq::empty(), false, a);
    assert(once =~= seq![a]);
    assert(!once.contains(b)) by {
        if once.contains(b) {
            assert(once[0] == b);
        }
    }
    assert(registered_after(once, false, b) =~= seq![a, b]);
}

} // verus!
