//! A deterministic key-value state machine, meant to be driven by a
//! replication engine that applies the same sequence of commands on every
//! replica.
use std::collections::BTreeMap;
use vstd::laws_cmp::obeys_cmp;
use vstd::prelude::*;

verus! {

/// A command delivered by the replication engine.
#[derive(Debug, Clone, PartialEq, Eq, PartialOrd, Ord, Hash)]
pub enum Command<Key, Value> {
    /// Read the value stored under a key.
    Get(Key),
    /// Insert a value under a key, overwriting any previous one.
    Store(Key, Value),
    /// Remove a key, if it is present.
    Clear(Key),
}

/// The answer to one command.
#[derive(Debug, Clone, PartialEq, Eq, PartialOrd, Ord, Hash)]
pub enum CommandResponse<Value> {
    /// A `Store` or `Clear` was applied.
    Ack(),
    /// A `Get` found no entry for its key.
    Empty(),
    /// A `Get` found an entry: a duplicate of the stored value.
    Value(Value),
}

/// The state after applying `c` to the state `s`.
pub open spec fn next_state<Key, Value>(s: Map<Key, Value>, c: Command<Key, Value>) -> Map<
    Key,
    Value,
> {
    match c {
        Command::Get(_) => s,
        Command::Store(k, v) => s.insert(k, v),
        Command::Clear(k) => s.remove(k),
    }
}

/// The response to `c` in the state `s`, read before `c` takes effect.
pub open spec fn response_of<Key, Value>(
    s: Map<Key, Value>,
    c: Command<Key, Value>,
) -> CommandResponse<Value> {
    match c {
        Command::Get(k) => if s.contains_key(k) {
            CommandResponse::Value(s[k])
        } else {
            CommandResponse::Empty()
        },
        Command::Store(_, _) => CommandResponse::Ack(),
        Command::Clear(_) => CommandResponse::Ack(),
    }
}

/// `r` answers as `expected` does, where a carried value may be a clone of
/// the expected one.
pub open spec fn response_matches<Value: Clone>(
    expected: CommandResponse<Value>,
    r: CommandResponse<Value>,
) -> bool {
    match expected {
        CommandResponse::Value(v) => r matches CommandResponse::Value(w) && cloned::<Value>(v, w),
        _ => r == expected,
    }
}

/// What one application of `c` does: from the state `s` to the state `t`,
/// answering `r`.
pub open spec fn step<Key, Value: Clone>(
    s: Map<Key, Value>,
    c: Command<Key, Value>,
    t: Map<Key, Value>,
    r: CommandResponse<Value>,
) -> bool {
    &&& t == next_state(s, c)
    &&& response_matches(response_of(s, c), r)
}

/// Cloning a `Value` yields a value equal to the original.
pub open spec fn clone_is_exact<Value: Clone>() -> bool {
    forall|a: Value, b: Value| #[trigger] cloned::<Value>(a, b) ==> a == b
}

/// Applying a command is deterministic: from the same state, the same
/// command always leads to the same state and, where cloning a value yields
/// an equal value, to the same response.
pub proof fn lemma_step_deterministic<Key, Value: Clone>(
    s: Map<Key, Value>,
    c: Command<Key, Value>,
    t1: Map<Key, Value>,
    r1: CommandResponse<Value>,
    t2: Map<Key, Value>,
    r2: CommandResponse<Value>,
)
    requires
        step(s, c, t1, r1),
        step(s, c, t2, r2),
    ensures
        t1 == t2,
        clone_is_exact::<Value>() ==> r1 == r2,
{
    if clone_is_exact::<Value>() {
        if let CommandResponse::Value(v) = response_of(s, c) {
            let w1 = r1->Value_0;
            let w2 = r2->Value_0;
            assert(cloned::<Value>(v, w1));
            assert(cloned::<Value>(v, w2));
        }
    }
}

/// After `Store(k, v)`, `Get(k)` answers with (a clone of) `v`.
pub proof fn lemma_store_then_get<Key, Value: Clone>(
    s0: Map<Key, Value>,
    k: Key,
    v: Value,
    s1: Map<Key, Value>,
    r1: CommandResponse<Value>,
    s2: Map<Key, Value>,
    r2: CommandResponse<Value>,
)
    requires
        step(s0, Command::Store(k, v), s1, r1),
        step(s1, Command::Get(k), s2, r2),
    ensures
        r1 == CommandResponse::<Value>::Ack(),
        response_matches(CommandResponse::Value(v), r2),
        s2 == s1,
{
}

/// After `Clear(k)`, `Get(k)` answers `Empty`, whatever the state was.
pub proof fn lemma_clear_then_get<Key, Value: Clone>(
    s0: Map<Key, Value>,
    k: Key,
    s1: Map<Key, Value>,
    r1: CommandResponse<Value>,
    s2: Map<Key, Value>,
    r2: CommandResponse<Value>,
)
    requires
        step(s0, Command::Clear(k), s1, r1),
        step(s1, Command::Get(k), s2, r2),
    ensures
        r1 == CommandResponse::<Value>::Ack(),
        r2 == CommandResponse::<Value>::Empty(),
{
}

/// On a fresh, empty machine, `Get(k)` answers `Empty` for every key.
pub proof fn lemma_get_on_empty<Key, Value: Clone>(
    k: Key,
    s1: Map<Key, Value>,
    r: CommandResponse<Value>,
)
    requires
        step(Map::<Key, Value>::empty(), Command::Get(k), s1, r),
    ensures
        r == CommandResponse::<Value>::Empty(),
        s1 == Map::<Key, Value>::empty(),
{
}

/// After `Store(k, v1)` and then `Store(k, v2)`, `Get(k)` answers with (a
/// clone of) `v2`.
pub proof fn lemma_overwrite<Key, Value: Clone>(
    s0: Map<Key, Value>,
    k: Key,
    v1: Value,
    v2: Value,
    s1: Map<Key, Value>,
    r1: CommandResponse<Value>,
    s2: Map<Key, Value>,
    r2: CommandResponse<Value>,
    s3: Map<Key, Value>,
    r3: CommandResponse<Value>,
)
    requires
        step(s0, Command::Store(k, v1), s1, r1),
        step(s1, Command::Store(k, v2), s2, r2),
        step(s2, Command::Get(k), s3, r3),
    ensures
        r1 == CommandResponse::<Value>::Ack(),
        r2 == CommandResponse::<Value>::Ack(),
        response_matches(CommandResponse::Value(v2), r3),
{
}

/// `Clear(k)` on a key that is absent answers `Ack` and leaves the state as
/// it was; a following `Get(k)` answers `Empty`.
pub proof fn lemma_clear_absent<Key, Value: Clone>(
    s0: Map<Key, Value>,
    k: Key,
    s1: Map<Key, Value>,
    r1: CommandResponse<Value>,
    s2: Map<Key, Value>,
    r2: CommandResponse<Value>,
)
    requires
        !s0.contains_key(k),
        step(s0, Command::Clear(k), s1, r1),
        step(s1, Command::Get(k), s2, r2),
    ensures
        r1 == CommandResponse::<Value>::Ack(),
        s1 == s0,
        r2 == CommandResponse::<Value>::Empty(),
{
    assert(s0.remove(k) =~= s0);
}

/// Repeating `Store(k, v)` leaves the state as the first one left it.
pub proof fn lemma_store_idempotent<Key, Value: Clone>(
    s0: Map<Key, Value>,
    k: Key,
    v: Value,
    s1: Map<Key, Value>,
    r1: CommandResponse<Value>,
    s2: Map<Key, Value>,
    r2: CommandResponse<Value>,
)
    requires
        step(s0, Command::Store(k, v), s1, r1),
        step(s1, Command::Store(k, v), s2, r2),
    ensures
        s2 == s1,
        r1 == CommandResponse::<Value>::Ack(),
        r2 == CommandResponse::<Value>::Ack(),
{
    assert(s1.insert(k, v) =~= s1);
}

/// A replicated key-value map: the state is changed only by `process`.
#[derive(Debug, Clone, PartialEq, Eq, PartialOrd, Ord, Hash)]
pub struct MapApplication<Key, Value> {
    map: BTreeMap<Key, Value>,
}

impl<Key, Value> View for MapApplication<Key, Value> {
    type V = Map<Key, Value>;

    closed spec fn view(&self) -> Map<Key, Value> {
        self.map@
    }
}

impl<Key: Ord, Value> MapApplication<Key, Value> {
    /// A machine with an empty state.
    pub fn new() -> (r: Self)
        ensures
            r@ == Map::<Key, Value>::empty(),
    {
        MapApplication { map: BTreeMap::new() }
    }

    /// A machine whose state is the given mapping.
    pub fn from_map(map: BTreeMap<Key, Value>) -> (r: Self)
        ensures
            r@ == map@,
    {
        MapApplication { map }
    }

    /// The current state, for tests and debugging: mutation goes through
    /// `process` alone.
    pub fn get_map(&self) -> (r: &BTreeMap<Key, Value>)
        ensures
            r@ == self@,
    {
        &self.map
    }
}

/// What a replication engine drives: a machine that processes one committed
/// command at a time and answers each.
pub trait Application: Sized {
    type Command;
    type Res;

    /// Whether the machine can process commands at all.
    spec fn can_process(&self) -> bool;

    /// Processing `request` moves the machine from `self` to `next`, answering
    /// `res`.
    spec fn processes(&self, request: Self::Command, next: Self, res: Self::Res) -> bool;

    /// Applies one command and answers it.
    fn process(&mut self, request: Self::Command) -> (r: Self::Res)
        requires
            old(self).can_process(),
        ensures
            final(self).can_process(),
            old(self).processes(request, *final(self), r),
    ;
}

impl<Key: Ord + Clone, Value: Clone> Application for MapApplication<Key, Value> {
    type Command = Command<Key, Value>;
    type Res = CommandResponse<Value>;

    /// Keys must be totally ordered, as the map that holds the state needs.
    open spec fn can_process(&self) -> bool {
        obeys_cmp::<Key>()
    }

    open spec fn processes(
        &self,
        request: Command<Key, Value>,
        next: Self,
        res: CommandResponse<Value>,
    ) -> bool {
        step(self@, request, next@, res)
    }

    fn process(&mut self, request: Command<Key, Value>) -> (r: CommandResponse<Value>) {
        match request {
            Command::Get(key) => {
                if let Some(value) = self.map.get(&key).cloned() {
                    CommandResponse::Value(value)
                } else {
                    CommandResponse::Empty()
                }
            },
            Command::Store(key, new_value) => {
                self.map.insert(key, new_value);
                CommandResponse::Ack()
            },
            Command::Clear(key) => {
                self.map.remove(&key);
                CommandResponse::Ack()
            },
        }
    }
}

impl<Key: Ord, Value> Default for MapApplication<Key, Value> {
    fn default() -> (r: Self)
        ensures
            r@ == Map::<Key, Value>::empty(),
    {
        MapApplication::new()
    }
}

} // verus!
