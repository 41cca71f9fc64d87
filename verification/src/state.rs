use vstd::prelude::*;
use vstd::string::StringExecFns;
use crate::input::Input;
use crate::lifecycle::ObjectState;

verus! {

/// One lifecycle call that the registry asks for, on the state registered at
/// the given position.
#[derive(Copy, Clone, Eq, PartialEq, Debug, Structural)]
pub enum Callback {
    Init(usize),
    Open(usize),
    /// Update with the nanoseconds elapsed since the last frame.
    Update(usize, u64),
    Close(usize),
    Dispose(usize),
}

impl Callback {
    /// The position of the state that the call is made on.
    pub open spec fn position(self) -> usize {
        match self {
            Callback::Init(at) => at,
            Callback::Open(at) => at,
            Callback::Update(at, _) => at,
            Callback::Close(at) => at,
            Callback::Dispose(at) => at,
        }
    }
}

/// Every call is on one of the first `count` states.
pub open spec fn calls_within(calls: Seq<Callback>, count: nat) -> bool {
    forall|i: int| 0 <= i < calls.len() ==> (#[trigger] calls[i]).position() < count
}

/// Every call is on one of the first `count` states, and none is an update.
pub open spec fn lifecycle_within(calls: Seq<Callback>, count: nat) -> bool {
    forall|i: int|
        0 <= i < calls.len() ==> (#[trigger] calls[i]).position() < count && !(calls[i] is Update)
}

/// A misuse that the registry reports and otherwise ignores.
#[derive(Copy, Clone, Eq, PartialEq, Debug, Structural)]
pub enum Warning {
    /// `init` on a registry that is initialized already.
    InitAlreadyInitialized,
    /// `init` on a disposed registry.
    InitAlreadyDisposed,
    /// `register` on a disposed registry; the state is still appended.
    RegisterAlreadyDisposed,
    /// `open` on a disposed registry.
    OpenAlreadyDisposed,
    /// `open` with an identity that no registered state has.
    OpenNotFound,
    /// `dispose` on a registry that was never initialized.
    DisposeNotInitialized,
    /// `dispose` on a disposed registry.
    DisposeAlreadyDisposed,
}

impl Warning {
    /// The message that the warning is logged with, where `name` is the
    /// name of the state that the operation was about.
    pub open spec fn text(self, name: Seq<char>) -> Seq<char> {
        match self {
            Warning::InitAlreadyInitialized =>
                "Failed to initialize StateManager, already initialized"@,
            Warning::InitAlreadyDisposed => "Failed to initialize StateManager, already disposed"@,
            Warning::RegisterAlreadyDisposed => "Failed to register state '"@ + name
                + "', already disposed"@,
            Warning::OpenAlreadyDisposed => "Failed to open state '"@ + name
                + "', already disposed"@,
            Warning::OpenNotFound => "Failed to open state '"@ + name + "', not found"@,
            Warning::DisposeNotInitialized => "Failed to dispose StateManager, not initialized"@,
            Warning::DisposeAlreadyDisposed => "Failed to dispose StateManager, already disposed"@,
        }
    }

    pub fn message(self, name: &str) -> (r: String)
        ensures
            r@ == self.text(name@),
    {
        match self {
            Warning::InitAlreadyInitialized =>
                "Failed to initialize StateManager, already initialized".to_owned(),
            Warning::InitAlreadyDisposed =>
                "Failed to initialize StateManager, already disposed".to_owned(),
            Warning::RegisterAlreadyDisposed => {
                let mut text = "Failed to register state '".to_owned();
                text.append(name);
                text.append("', already disposed");
                text
            },
            Warning::OpenAlreadyDisposed => {
                let mut text = "Failed to open state '".to_owned();
                text.append(name);
                text.append("', already disposed");
                text
            },
            Warning::OpenNotFound => {
                let mut text = "Failed to open state '".to_owned();
                text.append(name);
                text.append("', not found");
                text
            },
            Warning::DisposeNotInitialized =>
                "Failed to dispose StateManager, not initialized".to_owned(),
            Warning::DisposeAlreadyDisposed =>
                "Failed to dispose StateManager, already disposed".to_owned(),
        }
    }
}

/// What one operation of the registry asks its caller to do: the lifecycle
/// calls to make, in this order, and the warning to log, if any.
pub struct Outcome {
    pub callbacks: Vec<Callback>,
    pub warning: Option<Warning>,
}

/// `Init` for the positions `0..count`, in this order.
pub open spec fn init_calls(count: nat) -> Seq<Callback> {
    Seq::new(count, |i: int| Callback::Init(i as usize))
}

/// `Dispose` for the positions `0..count`, in this order.
pub open spec fn dispose_calls(count: nat) -> Seq<Callback> {
    Seq::new(count, |i: int| Callback::Dispose(i as usize))
}

/// Whether position `at` is the first at which `identity` is registered.
pub open spec fn first_at(ids: Seq<u64>, identity: u64, at: int) -> bool {
    &&& 0 <= at < ids.len()
    &&& ids[at] == identity
    &&& forall|j: int| 0 <= j < at ==> ids[j] != identity
}

/// Whether no state is registered under `identity`.
pub open spec fn absent(ids: Seq<u64>, identity: u64) -> bool {
    forall|j: int| 0 <= j < ids.len() ==> ids[j] != identity
}

/// What the registry holds: the identities of the registered states in the
/// order of registration, the position of the current state, and the phase.
pub struct RegistryView {
    pub ids: Seq<u64>,
    pub current: Option<usize>,
    pub phase: ObjectState,
}

impl RegistryView {
    /// The current state, if any, is a registered one, and every position
    /// fits the machine's word.
    pub open spec fn wf(self) -> bool {
        &&& self.ids.len() <= usize::MAX
        &&& match self.current {
            Some(c) => c < self.ids.len(),
            None => true,
        }
    }

    /// The call that closing the current state asks for: its `Close` while
    /// the registry is initialized, and nothing otherwise.
    pub open spec fn close_calls(self) -> Seq<Callback> {
        match self.current {
            Some(c) => if self.phase == ObjectState::Initialized {
                seq![Callback::Close(c)]
            } else {
                Seq::empty()
            },
            None => Seq::empty(),
        }
    }

    /// The call that a frame asks for: `Update` on the current state with
    /// the elapsed nanoseconds while the registry is initialized, and
    /// nothing otherwise.
    pub open spec fn update_calls(self, delta: u64) -> Seq<Callback> {
        match self.current {
            Some(c) => if self.phase == ObjectState::Initialized {
                seq![Callback::Update(c, delta)]
            } else {
                Seq::empty()
            },
            None => Seq::empty(),
        }
    }

    /// The registry after `init`: `Initialized` if it was `Created`, and
    /// unchanged otherwise.
    pub open spec fn after_init(self) -> RegistryView {
        if self.phase == ObjectState::Created {
            RegistryView { phase: ObjectState::Initialized, ..self }
        } else {
            self
        }
    }

    /// The calls that `init` asks for: from `Created`, `Init` on every
    /// registered state in the order of registration, then `Open` on the
    /// current state if one was chosen; from any other phase, nothing.
    pub open spec fn init_plan(self) -> Seq<Callback> {
        if self.phase == ObjectState::Created {
            init_calls(self.ids.len()) + self.open_calls()
        } else {
            Seq::empty()
        }
    }

    /// The warning that `init` gives.
    pub open spec fn init_warning(self) -> Option<Warning> {
        match self.phase {
            ObjectState::Created => None,
            ObjectState::Initialized => Some(Warning::InitAlreadyInitialized),
            ObjectState::Disposed => Some(Warning::InitAlreadyDisposed),
        }
    }

    /// The registry after `dispose`: `Disposed` and without a current state
    /// if it was `Initialized`, and unchanged otherwise.
    pub open spec fn after_dispose(self) -> RegistryView {
        if self.phase == ObjectState::Initialized {
            RegistryView { current: None, phase: ObjectState::Disposed, ..self }
        } else {
            self
        }
    }

    /// The calls that `dispose` asks for: from `Initialized`, `Close` on the
    /// current state if there is one, then `Dispose` on every registered
    /// state in the order of registration; from any other phase, nothing.
    pub open spec fn dispose_plan(self) -> Seq<Callback> {
        if self.phase == ObjectState::Initialized {
            self.close_calls() + dispose_calls(self.ids.len())
        } else {
            Seq::empty()
        }
    }

    /// The warning that `dispose` gives.
    pub open spec fn dispose_warning(self) -> Option<Warning> {
        match self.phase {
            ObjectState::Created => Some(Warning::DisposeNotInitialized),
            ObjectState::Initialized => None,
            ObjectState::Disposed => Some(Warning::DisposeAlreadyDisposed),
        }
    }

    /// The registry after `register`: the identity is appended, in every
    /// phase.
    pub open spec fn after_register(self, identity: u64) -> RegistryView {
        RegistryView { ids: self.ids.push(identity), ..self }
    }

    /// The call that `register` asks for: `Init` on the new state while the
    /// registry is initialized, and nothing otherwise.
    pub open spec fn register_plan(self) -> Seq<Callback> {
        if self.phase == ObjectState::Initialized {
            seq![Callback::Init(self.ids.len() as usize)]
        } else {
            Seq::empty()
        }
    }

    /// The warning that `register` gives.
    pub open spec fn register_warning(self) -> Option<Warning> {
        if self.phase == ObjectState::Disposed {
            Some(Warning::RegisterAlreadyDisposed)
        } else {
            None
        }
    }

    /// The registry after `close`: without a current state.
    pub open spec fn after_close(self) -> RegistryView {
        RegistryView { current: None, ..self }
    }

    /// What `open` does: whether it takes the registry to `next`, asks for
    /// `calls` and gives `warning`.
    ///
    /// On a disposed registry it warns and changes nothing. Otherwise the
    /// current state is closed first; then the first state registered under
    /// `identity` becomes current, with its `Open` while the registry is
    /// initialized; where there is none, the registry warns and is left
    /// without a current state.
    pub open spec fn open_gives(
        self,
        identity: u64,
        next: RegistryView,
        calls: Seq<Callback>,
        warning: Option<Warning>,
    ) -> bool {
        if self.phase == ObjectState::Disposed {
            &&& next == self
            &&& calls == Seq::<Callback>::empty()
            &&& warning == Some(Warning::OpenAlreadyDisposed)
        } else {
            &&& next.ids == self.ids
            &&& next.phase == self.phase
            &&& match next.current {
                Some(at) => first_at(self.ids, identity, at as int),
                None => absent(self.ids, identity),
            }
            &&& calls == self.close_calls() + (if self.phase == ObjectState::Initialized {
                next.open_calls()
            } else {
                Seq::<Callback>::empty()
            })
            &&& warning == (if next.current is None {
                Some(Warning::OpenNotFound)
            } else {
                None
            })
        }
    }

    /// The call that opening the current state asks for.
    pub open spec fn open_calls(self) -> Seq<Callback> {
        match self.current {
            Some(c) => seq![Callback::Open(c)],
            None => Seq::empty(),
        }
    }
}

/// The decisions of the state manager, apart from the states themselves. It
/// owns the order of registration, knows which state is current, and decides
/// which lifecycle calls are due.
pub struct Registry {
    ids: Vec<u64>,
    current: Option<usize>,
    object_state: ObjectState,
}

impl View for Registry {
    type V = RegistryView;

    closed spec fn view(&self) -> RegistryView {
        RegistryView { ids: self.ids@, current: self.current, phase: self.object_state }
    }
}

impl Registry {
    /// An empty registry in phase `Created`, with no current state.
    pub fn new() -> (r: Registry)
        ensures
            r@.wf(),
            r@.ids == Seq::<u64>::empty(),
            r@.current is None,
            r@.phase == ObjectState::Created,
    {
        Registry { ids: Vec::new(), current: None, object_state: ObjectState::Created }
    }

    pub fn phase(&self) -> (r: ObjectState)
        ensures
            r == self@.phase,
    {
        self.object_state
    }

    /// The position of the current state.
    pub fn current(&self) -> (r: Option<usize>)
        ensures
            r == self@.current,
    {
        self.current
    }

    /// The number of registered states.
    pub fn len(&self) -> (r: usize)
        ensures
            r == self@.ids.len(),
    {
        self.ids.len()
    }

    /// Starts the engine: from `Created`, asks for `Init` on every registered
    /// state in the order of registration, then for `Open` on the current
    /// state if one was chosen, and enters `Initialized`. From any other
    /// phase it warns and changes nothing.
    pub fn init(&mut self) -> (r: Outcome)
        requires
            old(self)@.wf(),
        ensures
            final(self)@.wf(),
            final(self)@ == old(self)@.after_init(),
            r.callbacks@ == old(self)@.init_plan(),
            r.warning == old(self)@.init_warning(),
    {
        let mut callbacks: Vec<Callback> = Vec::new();
        match self.object_state {
            ObjectState::Created => {
                let count = self.ids.len();
                let mut i: usize = 0;
                while i < count
                    invariant
                        i <= count,
                        callbacks@ == init_calls(i as nat),
                    decreases count - i,
                {
                    callbacks.push(Callback::Init(i));
                    i += 1;
                    assert(callbacks@ =~= init_calls(i as nat));
                }
                if let Some(c) = self.current {
                    callbacks.push(Callback::Open(c));
                }
                self.object_state = ObjectState::Initialized;
                assert(callbacks@ =~= init_calls(old(self)@.ids.len()) + old(self)@.open_calls());
                Outcome { callbacks, warning: None }
            },
            ObjectState::Initialized => Outcome {
                callbacks,
                warning: Some(Warning::InitAlreadyInitialized),
            },
            ObjectState::Disposed => Outcome {
                callbacks,
                warning: Some(Warning::InitAlreadyDisposed),
            },
        }
    }

    /// Appends a state under `identity`, in every phase. While the registry
    /// is initialized it asks for the new state's `Init` at once; on a
    /// disposed registry it warns, and no call will ever be made on the new
    /// state.
    pub fn register(&mut self, identity: u64) -> (r: Outcome)
        requires
            old(self)@.wf(),
        ensures
            final(self)@.wf(),
            final(self)@ == old(self)@.after_register(identity),
            r.callbacks@ == old(self)@.register_plan(),
            r.warning == old(self)@.register_warning(),
    {
        let mut callbacks: Vec<Callback> = Vec::new();
        let mut warning: Option<Warning> = None;
        match self.object_state {
            ObjectState::Disposed => {
                warning = Some(Warning::RegisterAlreadyDisposed);
            },
            ObjectState::Initialized => {
                callbacks.push(Callback::Init(self.ids.len()));
            },
            ObjectState::Created => {},
        }
        self.ids.push(identity);
        assert(self.ids@.len() == self.ids.len());
        Outcome { callbacks, warning }
    }

    /// Makes the first state registered under `identity` the current one.
    ///
    /// On a disposed registry it warns and changes nothing. Otherwise the
    /// current state is closed first; then, if `identity` is found, that
    /// state becomes current, and while the registry is initialized its
    /// `Open` is asked for; if it is not found, the registry warns and stays
    /// without a current state.
    pub fn open(&mut self, identity: u64) -> (r: Outcome)
        requires
            old(self)@.wf(),
        ensures
            final(self)@.wf(),
            old(self)@.open_gives(identity, final(self)@, r.callbacks@, r.warning),
    {
        if self.object_state == ObjectState::Disposed {
            return Outcome { callbacks: Vec::new(), warning: Some(Warning::OpenAlreadyDisposed) };
        }
        let closing = self.close();
        let mut callbacks = closing.callbacks;
        let mut i: usize = 0;
        while i < self.ids.len()
            invariant
                i <= self.ids.len(),
                self.ids@ == old(self).ids@,
                self.object_state == old(self).object_state,
                self.current is None,
                old(self).object_state != ObjectState::Disposed,
                callbacks@ == old(self)@.close_calls(),
                forall|j: int| 0 <= j < i ==> self.ids@[j] != identity,
            decreases self.ids.len() - i,
        {
            if self.ids[i] == identity {
                if self.object_state == ObjectState::Initialized {
                    callbacks.push(Callback::Open(i));
                }
                self.current = Some(i);
                assert(callbacks@ =~= old(self)@.close_calls() + (if old(self)@.phase
                    == ObjectState::Initialized {
                    self@.open_calls()
                } else {
                    Seq::<Callback>::empty()
                }));
                return Outcome { callbacks, warning: None };
            }
            i += 1;
        }
        assert(callbacks@ =~= old(self)@.close_calls() + Seq::<Callback>::empty());
        Outcome { callbacks, warning: Some(Warning::OpenNotFound) }
    }

    /// One frame: while the registry is initialized and a state is current,
    /// asks for that state's `Update` with the elapsed nanoseconds; otherwise
    /// asks for nothing.
    pub fn update(&self, delta: u64) -> (r: Outcome)
        ensures
            r.warning is None,
            r.callbacks@ == self@.update_calls(delta),
    {
        let mut callbacks: Vec<Callback> = Vec::new();
        if self.object_state == ObjectState::Initialized {
            if let Some(c) = self.current {
                callbacks.push(Callback::Update(c, delta));
            }
        }
        Outcome { callbacks, warning: None }
    }

    /// Leaves the registry without a current state. While the registry is
    /// initialized the state that was current gets its `Close`.
    pub fn close(&mut self) -> (r: Outcome)
        ensures
            final(self)@ == old(self)@.after_close(),
            old(self)@.wf() ==> final(self)@.wf(),
            r.callbacks@ == old(self)@.close_calls(),
            r.warning is None,
    {
        let mut callbacks: Vec<Callback> = Vec::new();
        if let Some(c) = self.current {
            if self.object_state == ObjectState::Initialized {
                callbacks.push(Callback::Close(c));
            }
        }
        self.current = None;
        Outcome { callbacks, warning: None }
    }

    /// Shuts the engine down: from `Initialized`, closes the current state,
    /// then asks for `Dispose` on every registered state in the order of
    /// registration, and enters `Disposed`. From any other phase it warns,
    /// asks for no call and changes nothing.
    pub fn dispose(&mut self) -> (r: Outcome)
        requires
            old(self)@.wf(),
        ensures
            final(self)@.wf(),
            final(self)@ == old(self)@.after_dispose(),
            r.callbacks@ == old(self)@.dispose_plan(),
            r.warning == old(self)@.dispose_warning(),
    {
        match self.object_state {
            ObjectState::Created => Outcome {
                callbacks: Vec::new(),
                warning: Some(Warning::DisposeNotInitialized),
            },
            ObjectState::Initialized => {
                let closing = self.close();
                let mut callbacks = closing.callbacks;
                let count = self.ids.len();
                let mut i: usize = 0;
                while i < count
                    invariant
                        i <= count,
                        callbacks@ == old(self)@.close_calls() + dispose_calls(i as nat),
                    decreases count - i,
                {
                    callbacks.push(Callback::Dispose(i));
                    i += 1;
                    assert(callbacks@ =~= old(self)@.close_calls() + dispose_calls(i as nat));
                }
                self.object_state = ObjectState::Disposed;
                Outcome { callbacks, warning: None }
            },
            ObjectState::Disposed => Outcome {
                callbacks: Vec::new(),
                warning: Some(Warning::DisposeAlreadyDisposed),
            },
        }
    }
}

/// What an application state implements. The state manager makes these
/// calls; what a state does in them is its own affair.
pub trait TState {
    /// Called once: when the engine starts, or at registration for a state
    /// that is registered after the start.
    fn init(&mut self);

    /// Called each time the state becomes the current one.
    fn open(&mut self);

    /// Called once per frame while the state is the current one, with the
    /// input of the frame and the nanoseconds elapsed since the last frame.
    fn update(&mut self, input: &Input, delta: u64);

    /// Called when the state stops being the current one.
    fn close(&mut self);

    /// Called once, when the engine shuts down.
    fn dispose(&mut self);
}

/// Every call that `init` asks for is on a registered state, and none is an
/// update.
pub proof fn lemma_init_plan_within(registry: RegistryView)
    requires
        registry.wf(),
    ensures
        lifecycle_within(registry.init_plan(), registry.ids.len()),
{
    let plan = registry.init_plan();
    let inits = init_calls(registry.ids.len());
    assert forall|i: int| 0 <= i < plan.len() implies (#[trigger] plan[i]).position()
        < registry.ids.len() && !(plan[i] is Update) by {
        if i < inits.len() {
            assert(plan[i] == inits[i]);
        } else {
            assert(plan[i] == registry.open_calls()[i - inits.len()]);
        }
    }
}

/// Every call that `dispose` asks for is on a registered state, and none is
/// an update.
pub proof fn lemma_dispose_plan_within(registry: RegistryView)
    requires
        registry.wf(),
    ensures
        lifecycle_within(registry.dispose_plan(), registry.ids.len()),
{
    let plan = registry.dispose_plan();
    let closes = registry.close_calls();
    assert forall|i: int| 0 <= i < plan.len() implies (#[trigger] plan[i]).position()
        < registry.ids.len() && !(plan[i] is Update) by {
        if i < closes.len() {
            assert(plan[i] == closes[i]);
        } else {
            assert(plan[i] == dispose_calls(registry.ids.len())[i - closes.len()]);
        }
    }
}

/// Every call that `open` asks for is on a registered state, and none is an
/// update.
pub proof fn lemma_open_calls_within(
    registry: RegistryView,
    identity: u64,
    next: RegistryView,
    calls: Seq<Callback>,
    warning: Option<Warning>,
)
    requires
        registry.wf(),
        registry.open_gives(identity, next, calls, warning),
    ensures
        lifecycle_within(calls, registry.ids.len()),
        next.wf(),
{
    let closes = registry.close_calls();
    assert forall|i: int| 0 <= i < calls.len() implies (#[trigger] calls[i]).position()
        < registry.ids.len() && !(calls[i] is Update) by {
        if i < closes.len() {
            assert(calls[i] == closes[i]);
        } else {
            assert(calls[i] == next.open_calls()[i - closes.len()]);
        }
    }
}

/// Makes the calls on the states, one after the other.
///
/// What a call does to its state is the state's own affair, so the contract
/// speaks through what the methods of `S` ensure: for each call there is the
/// reference that was handed to the method named by the call. That reference
/// held the state as the calls before had left it, the method's own
/// postcondition holds of it, and what the method left behind is what the
/// later calls and the caller find. No other state is touched.
fn perform<S: TState>(states: &mut Vec<S>, calls: &Vec<Callback>, input: Option<&Input>)
    requires
        calls_within(calls@, old(states)@.len()),
        input is None ==> lifecycle_within(calls@, old(states)@.len()),
    ensures
        final(states)@.len() == old(states)@.len(),
        exists|refs: Seq<&mut S>, left: Seq<S>|
            #![trigger refs.len(), left.len()]
            {
                &&& refs.len() == calls@.len()
                &&& left.len() == calls@.len()
                &&& final(states)@ == replay(old(states)@, calls@, left)
                &&& forall|i: int|
                    0 <= i < calls@.len() ==> {
                        &&& made(calls@[i], #[trigger] refs[i], input)
                        &&& mut_ref_current(refs[i]) == found(old(states)@, calls@, left, i)
                        &&& mut_ref_future(refs[i]) == left[i]
                    }
            },
        calls@.len() == 0 ==> final(states)@ == old(states)@,
{
    let ghost mut left: Seq<S> = Seq::empty();
    let mut i: usize = 0;
    proof {
        let none = Seq::<&mut S>::empty();
        assert(none.len() == 0);
        assert(calls@.take(0).len() == 0);
    }
    while i < calls.len()
        invariant
            i <= calls.len(),
            states@.len() == old(states)@.len(),
            calls_within(calls@, states@.len()),
            input is None ==> lifecycle_within(calls@, states@.len()),
            left.len() == i,
            states@ == replay(old(states)@, calls@.take(i as int), left),
            exists|refs: Seq<&mut S>|
                {
                    &&& refs.len() == i
                    &&& forall|k: int|
                        0 <= k < i ==> {
                            &&& made(calls@[k], #[trigger] refs[k], input)
                            &&& mut_ref_current(refs[k]) == found(old(states)@, calls@, left, k)
                            &&& mut_ref_future(refs[k]) == left[k]
                        }
                },
        decreases calls.len() - i,
    {
        let call = calls[i];
        assert(call.position() < states@.len());
        let ghost before = states@;
        let ghost at = call.position() as int;
        let ghost left0 = left;
        match call {
            Callback::Init(p) => {
                states[p].init();
                proof {
                    assert(exists|r: &mut S|
                        mut_ref_current(r) == before[at] && mut_ref_future(r) == states@[at]
                            && #[trigger] call_ensures(S::init, (r,), ()));
                    let r = choose|r: &mut S|
                        mut_ref_current(r) == before[at] && mut_ref_future(r) == states@[at]
                            && #[trigger] call_ensures(S::init, (r,), ());
                    assert(made(call, r, input));
                }
            },
            Callback::Open(p) => {
                states[p].open();
                proof {
                    assert(exists|r: &mut S|
                        mut_ref_current(r) == before[at] && mut_ref_future(r) == states@[at]
                            && #[trigger] call_ensures(S::open, (r,), ()));
                    let r = choose|r: &mut S|
                        mut_ref_current(r) == before[at] && mut_ref_future(r) == states@[at]
                            && #[trigger] call_ensures(S::open, (r,), ());
                    assert(made(call, r, input));
                }
            },
            Callback::Update(p, delta) => {
                match input {
                    Some(frame) => {
                        states[p].update(frame, delta);
                        proof {
                            assert(exists|r: &mut S|
                                mut_ref_current(r) == before[at] && mut_ref_future(r) == states@[at]
                                    && #[trigger] call_ensures(S::update, (r, frame, delta), ()));
                            let r = choose|r: &mut S|
                                mut_ref_current(r) == before[at] && mut_ref_future(r) == states@[at]
                                    && #[trigger] call_ensures(S::update, (r, frame, delta), ());
                            assert(made(call, r, input));
                        }
                    },
                    None => {
                        assert(false);
                    },
                }
            },
            Callback::Close(p) => {
                states[p].close();
                proof {
                    assert(exists|r: &mut S|
                        mut_ref_current(r) == before[at] && mut_ref_future(r) == states@[at]
                            && #[trigger] call_ensures(S::close, (r,), ()));
                    let r = choose|r: &mut S|
                        mut_ref_current(r) == before[at] && mut_ref_future(r) == states@[at]
                            && #[trigger] call_ensures(S::close, (r,), ());
                    assert(made(call, r, input));
                }
            },
            Callback::Dispose(p) => {
                states[p].dispose();
                proof {
                    assert(exists|r: &mut S|
                        mut_ref_current(r) == before[at] && mut_ref_future(r) == states@[at]
                            && #[trigger] call_ensures(S::dispose, (r,), ()));
                    let r = choose|r: &mut S|
                        mut_ref_current(r) == before[at] && mut_ref_future(r) == states@[at]
                            && #[trigger] call_ensures(S::dispose, (r,), ());
                    assert(made(call, r, input));
                }
            },
        }
        proof {
            left = left0.push(states@[at]);
            let r = choose|r: &mut S|
                mut_ref_current(r) == before[at] && mut_ref_future(r) == states@[at] && #[trigger] made(
                    call,
                    r,
                    input,
                );
            let refs0 = choose|refs: Seq<&mut S>|
                {
                    &&& refs.len() == i
                    &&& forall|k: int|
                        0 <= k < i ==> {
                            &&& made(calls@[k], #[trigger] refs[k], input)
                            &&& mut_ref_current(refs[k]) == found(old(states)@, calls@, left0, k)
                            &&& mut_ref_future(refs[k]) == left0[k]
                        }
                };
            let refs1 = refs0.push(r);
            let upto = calls@.take(i + 1);
            assert(upto.drop_last() =~= calls@.take(i as int));
            assert(upto.last() == call);
            assert(left.drop_last() =~= left0);
            assert(states@ =~= before.update(at, states@[at]));
            assert(states@ == replay(old(states)@, upto, left));
            assert(refs1.len() == i + 1);
            assert forall|k: int| 0 <= k < i + 1 implies {
                &&& made(calls@[k], #[trigger] refs1[k], input)
                &&& mut_ref_current(refs1[k]) == found(old(states)@, calls@, left, k)
                &&& mut_ref_future(refs1[k]) == left[k]
            } by {
                if k < i {
                    assert(refs1[k] == refs0[k]);
                    assert(left.take(k) =~= left0.take(k));
                    assert(left[k] == left0[k]);
                } else {
                    assert(refs1[k] == r);
                    assert(left.take(k) =~= left0);
                }
            }
        }
        i += 1;
    }
    proof {
        assert(calls@.take(calls@.len() as int) =~= calls@);
        let refs = choose|refs: Seq<&mut S>|
            {
                &&& refs.len() == i
                &&& forall|k: int|
                    0 <= k < i ==> {
                        &&& made(calls@[k], #[trigger] refs[k], input)
                        &&& mut_ref_current(refs[k]) == found(old(states)@, calls@, left, k)
                        &&& mut_ref_future(refs[k]) == left[k]
                    }
            };
        assert(refs.len() == calls@.len());
    }
}

/// Whether the method that `call` names ran on the state behind `state` and
/// came back: its postcondition holds of that reference, with the input of
/// the frame and the elapsed nanoseconds handed to an update.
pub open spec fn made<S: TState>(call: Callback, state: &mut S, input: Option<&Input>) -> bool {
    match call {
        Callback::Init(_) => call_ensures(S::init, (state,), ()),
        Callback::Open(_) => call_ensures(S::open, (state,), ()),
        Callback::Update(_, delta) => input is Some && call_ensures(
            S::update,
            (state, input->0, delta),
            (),
        ),
        Callback::Close(_) => call_ensures(S::close, (state,), ()),
        Callback::Dispose(_) => call_ensures(S::dispose, (state,), ()),
    }
}

/// The states after the calls, where `left[i]` is the state that call `i`
/// left behind: each call replaces the state at its position and no other.
pub open spec fn replay<S>(start: Seq<S>, calls: Seq<Callback>, left: Seq<S>) -> Seq<S>
    decreases calls.len(),
{
    if calls.len() == 0 {
        start
    } else {
        replay(start, calls.drop_last(), left.drop_last()).update(
            calls.last().position() as int,
            left.last(),
        )
    }
}

/// The state that call `i` found: the one at its position after the calls
/// before it.
pub open spec fn found<S>(start: Seq<S>, calls: Seq<Callback>, left: Seq<S>, i: int) -> S {
    replay(start, calls.take(i), left.take(i))[calls[i].position() as int]
}

/// The state manager: it owns the registered states, in the order of
/// registration, and makes the lifecycle calls on them that its registry
/// decides on. Each operation hands back the calls that it made, in their
/// order, and the warning to log, if any.
pub struct StateManager<S: TState> {
    registry: Registry,
    states: Vec<S>,
}

impl<S: TState> View for StateManager<S> {
    type V = RegistryView;

    closed spec fn view(&self) -> RegistryView {
        self.registry@
    }
}

impl<S: TState> StateManager<S> {
    /// The registered states, in the order of registration.
    pub closed spec fn states(&self) -> Seq<S> {
        self.states@
    }

    /// There is one state for each registered identity, and the current
    /// state, if any, is one of them.
    pub closed spec fn wf(&self) -> bool {
        &&& self.registry@.wf()
        &&& self.states@.len() == self.registry@.ids.len()
    }

    /// A well-formed state manager holds as many states as identities.
    pub proof fn lemma_one_state_each(&self)
        requires
            self.wf(),
        ensures
            self.states().len() == self@.ids.len(),
            self@.wf(),
    {
    }

    /// An empty state manager in phase `Created`, with no current state.
    pub fn new() -> (r: StateManager<S>)
        ensures
            r.wf(),
            r@.ids == Seq::<u64>::empty(),
            r@.current is None,
            r@.phase == ObjectState::Created,
    {
        StateManager { registry: Registry::new(), states: Vec::new() }
    }

    pub fn phase(&self) -> (r: ObjectState)
        ensures
            r == self@.phase,
    {
        self.registry.phase()
    }

    /// The position of the current state.
    pub fn current(&self) -> (r: Option<usize>)
        ensures
            r == self@.current,
    {
        self.registry.current()
    }

    /// The number of registered states.
    pub fn len(&self) -> (r: usize)
        ensures
            r == self@.ids.len(),
    {
        self.registry.len()
    }

    /// The state registered at `position`.
    pub fn state(&self, position: usize) -> (r: &S)
        requires
            self.wf(),
            position < self@.ids.len(),
        ensures
            *r == self.states()[position as int],
    {
        &self.states[position]
    }

    /// Starts the engine: from `Created`, calls `init` on every registered
    /// state in the order of registration, then `open` on the current state
    /// if one was chosen, and enters `Initialized`. From any other phase it
    /// warns, calls nothing and changes nothing.
    pub fn init(&mut self) -> (r: Outcome)
        requires
            old(self).wf(),
        ensures
            final(self).wf(),
            final(self)@ == old(self)@.after_init(),
            r.callbacks@ == old(self)@.init_plan(),
            r.warning == old(self)@.init_warning(),
            exists|refs: Seq<&mut S>, left: Seq<S>|
                #![trigger refs.len(), left.len()]
                {
                    &&& refs.len() == r.callbacks@.len()
                    &&& left.len() == r.callbacks@.len()
                    &&& final(self).states() == replay(old(self).states(), r.callbacks@, left)
                    &&& forall|i: int|
                        0 <= i < r.callbacks@.len() ==> {
                            &&& made(r.callbacks@[i], #[trigger] refs[i], None::<&Input>)
                            &&& mut_ref_current(refs[i]) == found(old(self).states(), r.callbacks@, left, i)
                            &&& mut_ref_future(refs[i]) == left[i]
                        }
                },
            r.callbacks@.len() == 0 ==> final(self).states() == old(self).states(),
    {
        let outcome = self.registry.init();
        proof {
            lemma_init_plan_within(old(self)@);
        }
        perform(&mut self.states, &outcome.callbacks, None);
        outcome
    }

    /// Appends `state` under `identity`, in every phase. While the state
    /// manager is initialized it calls the new state's `init` at once; once
    /// it is disposed it warns, and no call is ever made on the new state.
    pub fn register(&mut self, identity: u64, state: S) -> (r: Outcome)
        requires
            old(self).wf(),
        ensures
            final(self).wf(),
            final(self)@ == old(self)@.after_register(identity),
            r.callbacks@ == old(self)@.register_plan(),
            r.warning == old(self)@.register_warning(),
            final(self).states().len() == old(self).states().len() + 1,
            forall|i: int|
                0 <= i < old(self).states().len() ==> final(self).states()[i] == old(
                    self,
                ).states()[i],
            old(self)@.phase != ObjectState::Initialized ==> final(self).states() == old(
                self,
            ).states().push(state),
            old(self)@.phase == ObjectState::Initialized ==> exists|s: &mut S|
                mut_ref_current(s) == state && mut_ref_future(s) == final(self).states().last()
                    && #[trigger] call_ensures(S::init, (s,), ()),
    {
        let outcome = self.registry.register(identity);
        let ghost handed = state;
        self.states.push(state);
        let ghost pushed = self.states@;
        perform(&mut self.states, &outcome.callbacks, None);
        proof {
            let calls = outcome.callbacks@;
            if old(self)@.phase == ObjectState::Initialized {
                let at = old(self).states().len() as int;
                let (refs, left) = choose|refs: Seq<&mut S>, left: Seq<S>|
                    #![trigger refs.len(), left.len()]
                    {
                        &&& refs.len() == calls.len()
                        &&& left.len() == calls.len()
                        &&& self.states@ == replay(pushed, calls, left)
                        &&& forall|i: int|
                            0 <= i < calls.len() ==> {
                                &&& made(calls[i], #[trigger] refs[i], None::<&Input>)
                                &&& mut_ref_current(refs[i]) == found(pushed, calls, left, i)
                                &&& mut_ref_future(refs[i]) == left[i]
                            }
                    };
                assert(calls.len() == 1);
                assert(calls[0] == Callback::Init(at as usize));
                assert(made(calls[0], refs[0], None::<&Input>));
                assert(calls.drop_last().len() == 0);
                assert(calls.take(0).len() == 0);
                assert(calls.last() == calls[0]);
                assert(left.last() == left[0]);
                assert(self.states@ == pushed.update(at, left[0]));
                assert(found(pushed, calls, left, 0) == pushed[at]);
                assert(call_ensures(S::init, (refs[0],), ()));
            }
        }
        outcome
    }

    /// Makes the first state registered under `identity` the current one.
    ///
    /// Once disposed, the state manager warns and changes nothing.
    /// Otherwise it closes the current state first; then, if `identity` is
    /// found, that state becomes current, and while the state manager is
    /// initialized its `open` is called; if it is not found, the state
    /// manager warns and stays without a current state.
    pub fn open(&mut self, identity: u64) -> (r: Outcome)
        requires
            old(self).wf(),
        ensures
            final(self).wf(),
            old(self)@.open_gives(identity, final(self)@, r.callbacks@, r.warning),
            exists|refs: Seq<&mut S>, left: Seq<S>|
                #![trigger refs.len(), left.len()]
                {
                    &&& refs.len() == r.callbacks@.len()
                    &&& left.len() == r.callbacks@.len()
                    &&& final(self).states() == replay(old(self).states(), r.callbacks@, left)
                    &&& forall|i: int|
                        0 <= i < r.callbacks@.len() ==> {
                            &&& made(r.callbacks@[i], #[trigger] refs[i], None::<&Input>)
                            &&& mut_ref_current(refs[i]) == found(old(self).states(), r.callbacks@, left, i)
                            &&& mut_ref_future(refs[i]) == left[i]
                        }
                },
            r.callbacks@.len() == 0 ==> final(self).states() == old(self).states(),
    {
        let outcome = self.registry.open(identity);
        proof {
            lemma_open_calls_within(
                old(self)@,
                identity,
                self.registry@,
                outcome.callbacks@,
                outcome.warning,
            );
        }
        perform(&mut self.states, &outcome.callbacks, None);
        outcome
    }

    /// One frame: while the state manager is initialized and a state is
    /// current, calls that state's `update` with the input of the frame and
    /// the elapsed nanoseconds; otherwise calls nothing.
    pub fn update(&mut self, input: &Input, delta: u64) -> (r: Outcome)
        requires
            old(self).wf(),
        ensures
            final(self).wf(),
            final(self)@ == old(self)@,
            r.callbacks@ == old(self)@.update_calls(delta),
            r.warning is None,
            exists|refs: Seq<&mut S>, left: Seq<S>|
                #![trigger refs.len(), left.len()]
                {
                    &&& refs.len() == r.callbacks@.len()
                    &&& left.len() == r.callbacks@.len()
                    &&& final(self).states() == replay(old(self).states(), r.callbacks@, left)
                    &&& forall|i: int|
                        0 <= i < r.callbacks@.len() ==> {
                            &&& made(r.callbacks@[i], #[trigger] refs[i], Some(input))
                            &&& mut_ref_current(refs[i]) == found(old(self).states(), r.callbacks@, left, i)
                            &&& mut_ref_future(refs[i]) == left[i]
                        }
                },
            r.callbacks@.len() == 0 ==> final(self).states() == old(self).states(),
    {
        let outcome = self.registry.update(delta);
        perform(&mut self.states, &outcome.callbacks, Some(input));
        outcome
    }

    /// Leaves the state manager without a current state. While it is
    /// initialized the state that was current gets its `close`.
    pub fn close(&mut self) -> (r: Outcome)
        requires
            old(self).wf(),
        ensures
            final(self).wf(),
            final(self)@ == old(self)@.after_close(),
            r.callbacks@ == old(self)@.close_calls(),
            r.warning is None,
            exists|refs: Seq<&mut S>, left: Seq<S>|
                #![trigger refs.len(), left.len()]
                {
                    &&& refs.len() == r.callbacks@.len()
                    &&& left.len() == r.callbacks@.len()
                    &&& final(self).states() == replay(old(self).states(), r.callbacks@, left)
                    &&& forall|i: int|
                        0 <= i < r.callbacks@.len() ==> {
                            &&& made(r.callbacks@[i], #[trigger] refs[i], None::<&Input>)
                            &&& mut_ref_current(refs[i]) == found(old(self).states(), r.callbacks@, left, i)
                            &&& mut_ref_future(refs[i]) == left[i]
                        }
                },
            r.callbacks@.len() == 0 ==> final(self).states() == old(self).states(),
    {
        let outcome = self.registry.close();
        perform(&mut self.states, &outcome.callbacks, None);
        outcome
    }

    /// Shuts the engine down: from `Initialized`, closes the current state,
    /// then calls `dispose` on every registered state in the order of
    /// registration, and enters `Disposed`. From any other phase it warns,
    /// calls nothing and changes nothing.
    pub fn dispose(&mut self) -> (r: Outcome)
        requires
            old(self).wf(),
        ensures
            final(self).wf(),
            final(self)@ == old(self)@.after_dispose(),
            r.callbacks@ == old(self)@.dispose_plan(),
            r.warning == old(self)@.dispose_warning(),
            exists|refs: Seq<&mut S>, left: Seq<S>|
                #![trigger refs.len(), left.len()]
                {
                    &&& refs.len() == r.callbacks@.len()
                    &&& left.len() == r.callbacks@.len()
                    &&& final(self).states() == replay(old(self).states(), r.callbacks@, left)
                    &&& forall|i: int|
                        0 <= i < r.callbacks@.len() ==> {
                            &&& made(r.callbacks@[i], #[trigger] refs[i], None::<&Input>)
                            &&& mut_ref_current(refs[i]) == found(old(self).states(), r.callbacks@, left, i)
                            &&& mut_ref_future(refs[i]) == left[i]
                        }
                },
            r.callbacks@.len() == 0 ==> final(self).states() == old(self).states(),
    {
        let outcome = self.registry.dispose();
        proof {
            lemma_dispose_plan_within(old(self)@);
        }
        perform(&mut self.states, &outcome.callbacks, None);
        outcome
    }
}

/// The phase only moves forward, one step at a time, and only `init` and
/// `dispose` move it: `init` from `Created` to `Initialized`, `dispose` from
/// `Initialized` to `Disposed`. Neither leaves a current state that is not
/// registered.
pub proof fn lemma_phase_only_advances(registry: RegistryView)
    requires
        registry.wf(),
    ensures
        registry.phase.rank() <= registry.after_init().phase.rank() <= registry.phase.rank() + 1,
        registry.phase.rank() <= registry.after_dispose().phase.rank() <= registry.phase.rank()
            + 1,
        registry.after_init().phase != ObjectState::Created,
        registry.after_dispose().phase != ObjectState::Initialized,
        registry.after_init().wf(),
        registry.after_dispose().wf(),
{
}

/// A second `init` and a second `dispose` ask for no call: no transition
/// runs twice.
pub proof fn lemma_transitions_run_once(registry: RegistryView)
    ensures
        registry.after_init().init_plan() == Seq::<Callback>::empty(),
        registry.after_init().after_init() == registry.after_init(),
        registry.after_dispose().dispose_plan() == Seq::<Callback>::empty(),
        registry.after_dispose().after_dispose() == registry.after_dispose(),
{
}

/// `init` from `Created` asks for exactly one `Init` on each registered
/// state, and `dispose` from `Initialized` for exactly one `Dispose` on
/// each, whether or not the state was ever current.
pub proof fn lemma_each_state_once(registry: RegistryView, position: usize)
    requires
        registry.wf(),
        position < registry.ids.len(),
    ensures
        registry.phase == ObjectState::Created ==> {
            &&& registry.init_plan()[position as int] == Callback::Init(position)
            &&& forall|i: int|
                0 <= i < registry.init_plan().len() && registry.init_plan()[i] == Callback::Init(
                    position,
                ) ==> i == position
        },
        registry.phase == ObjectState::Initialized ==> {
            let skip = registry.close_calls().len() as int;
            &&& registry.dispose_plan()[skip + position] == Callback::Dispose(position)
            &&& forall|i: int|
                0 <= i < registry.dispose_plan().len() && registry.dispose_plan()[i]
                    == Callback::Dispose(position) ==> i == skip + position
        },
{
    if registry.phase == ObjectState::Created {
        let plan = registry.init_plan();
        let inits = init_calls(registry.ids.len());
        assert(plan[position as int] == inits[position as int]);
        assert forall|i: int| 0 <= i < plan.len() && plan[i] == Callback::Init(position) implies i
            == position by {
            if i < inits.len() {
                assert(plan[i] == inits[i]);
            } else {
                assert(plan[i] == registry.open_calls()[i - inits.len()]);
            }
        }
    }
    if registry.phase == ObjectState::Initialized {
        let plan = registry.dispose_plan();
        let closes = registry.close_calls();
        let disposes = dispose_calls(registry.ids.len());
        let skip = closes.len() as int;
        assert(plan[skip + position] == disposes[position as int]);
        assert forall|i: int| 0 <= i < plan.len() && plan[i] == Callback::Dispose(
            position,
        ) implies i == skip + position by {
            if i < skip {
                assert(plan[i] == closes[i]);
            } else {
                assert(plan[i] == disposes[i - skip]);
            }
        }
    }
}

} // verus!
