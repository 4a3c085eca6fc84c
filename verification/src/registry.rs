//! The running commands that a client can ask to be ended.
use vstd::prelude::*;
use crate::command_exec::CommandExecTerminateParams;
use crate::text::same_text;

verus! {

/// The handles of running commands, by the id that the client gave. No id has
/// two handles.
pub struct ExecRegistry<H> {
    entries: Vec<(String, H)>,
}

spec fn position<H>(entries: Seq<(String, H)>, id: Seq<char>) -> int
    decreases entries.len(),
{
    if entries.len() == 0 {
        0
    } else if entries.first().0@ == id {
        0
    } else {
        1 + position(entries.drop_first(), id)
    }
}

spec fn distinct<H>(entries: Seq<(String, H)>) -> bool {
    forall|i: int, j: int|
        0 <= i < j < entries.len() ==> (#[trigger] entries[i]).0@ != (#[trigger] entries[j]).0@
}

spec fn handles<H>(entries: Seq<(String, H)>) -> Map<Seq<char>, H> {
    Map::new(
        |id: Seq<char>| position(entries, id) < entries.len(),
        |id: Seq<char>| entries[position(entries, id)].1,
    )
}

proof fn position_facts<H>(entries: Seq<(String, H)>, id: Seq<char>)
    ensures
        0 <= position(entries, id) <= entries.len(),
        position(entries, id) < entries.len() ==> entries[position(entries, id)].0@ == id,
        forall|i: int|
            0 <= i < position(entries, id) ==> (#[trigger] entries[i]).0@ != id,
    decreases entries.len(),
{
    if entries.len() > 0 && entries.first().0@ != id {
        let rest = entries.drop_first();
        position_facts(rest, id);
        assert forall|i: int| 0 <= i < position(entries, id) implies (#[trigger] entries[i]).0@
            != id by {
            if i > 0 {
                assert(entries[i] == rest[i - 1]);
            }
        }
        if position(entries, id) < entries.len() {
            assert(entries[position(entries, id)] == rest[position(rest, id)]);
        }
    }
}

proof fn position_is<H>(entries: Seq<(String, H)>, id: Seq<char>, i: int)
    requires
        0 <= i < entries.len(),
        entries[i].0@ == id,
        distinct(entries),
    ensures
        position(entries, id) == i,
{
    position_facts(entries, id);
    let p = position(entries, id);
    if p < i {
        assert(entries[p].0@ != entries[i].0@);
    }
}

impl<H> View for ExecRegistry<H> {
    type V = Map<Seq<char>, H>;

    closed spec fn view(&self) -> Map<Seq<char>, H> {
        handles(self.entries@)
    }
}

impl<H> ExecRegistry<H> {
    #[verifier::type_invariant]
    spec fn well_formed(self) -> bool {
        distinct(self.entries@)
    }

    /// A registry without handles.
    pub fn new() -> (res: Self)
        ensures
            res@ == Map::<Seq<char>, H>::empty(),
    {
        let res = ExecRegistry { entries: Vec::new() };
        assert(res@ =~= Map::<Seq<char>, H>::empty());
        res
    }

    /// Where the handle of `id` stands, if it has one.
    fn find(&self, id: &str) -> (res: Option<usize>)
        ensures
            match res {
                Some(i) => i == position(self.entries@, id@) && i < self.entries@.len(),
                None => position(self.entries@, id@) >= self.entries@.len(),
            },
    {
        let mut i: usize = 0;
        while i < self.entries.len()
            invariant
                i <= self.entries@.len(),
                forall|k: int| 0 <= k < i ==> (#[trigger] self.entries@[k]).0@ != id@,
            decreases self.entries@.len() - i,
        {
            if same_text(self.entries[i].0.as_str(), id) {
                proof {
                    position_facts(self.entries@, id@);
                    let p = position(self.entries@, id@);
                    if p < i {
                        assert(self.entries@[p].0@ != id@);
                    }
                    if p > i {
                        assert(self.entries@[i as int].0@ != id@);
                    }
                }
                return Some(i);
            }
            i += 1;
        }
        proof {
            position_facts(self.entries@, id@);
            let p = position(self.entries@, id@);
            if p < i {
                assert(self.entries@[p].0@ != id@);
            }
        }
        None
    }

    /// Takes the handle of `id` out of the registry.
    pub fn take(&mut self, id: &str) -> (res: Option<H>)
        ensures
            final(self)@ == old(self)@.remove(id@),
            match res {
                Some(handle) => old(self)@.contains_key(id@) && handle == old(self)@[id@],
                None => !old(self)@.contains_key(id@),
            },
    {
        proof {
            use_type_invariant(&*self);
        }
        let ghost before = self.entries@;
        match self.find(id) {
            Some(i) => {
                let mut entries: Vec<(String, H)> = Vec::new();
                std::mem::swap(&mut entries, &mut self.entries);
                let removed = entries.remove(i);
                proof {
                    position_facts(before, id@);
                    assert(entries@ =~= before.remove(i as int));
                    assert(distinct(entries@));
                    let after = handles(entries@);
                    let expected = handles(before).remove(id@);
                    assert forall|k: Seq<char>|
                        #![trigger after.dom().contains(k)]
                        #![trigger expected.dom().contains(k)]
                        #![trigger after[k]]
                        after.dom().contains(k) == expected.dom().contains(k) && (
                        after.dom().contains(k) ==> after[k] == expected[k]) by {
                        position_facts(before, k);
                        position_facts(entries@, k);
                        let p = position(before, k);
                        let q = position(entries@, k);
                        if q < entries@.len() {
                            let r = if q < i {
                                q
                            } else {
                                q + 1
                            };
                            assert(before[r] == entries@[q]);
                            position_is(before, k, r);
                            if k == id@ {
                                assert(r == i);
                            }
                        } else if p < before.len() && k != id@ {
                            let r = if p < i {
                                p
                            } else {
                                p - 1
                            };
                            assert(entries@[r] == before[p]);
                            position_is(entries@, k, r);
                        }
                    }
                    assert(after =~= expected);
                }
                self.entries = entries;
                Some(removed.1)
            },
            None => {
                assert(handles(before).remove(id@) =~= handles(before));
                None
            },
        }
    }

    /// Puts the handle of `id` into the registry, in place of the one that it
    /// may have had, which is handed back.
    pub fn insert(&mut self, id: String, handle: H) -> (res: Option<H>)
        ensures
            final(self)@ == old(self)@.insert(id@, handle),
            match res {
                Some(replaced) => old(self)@.contains_key(id@) && replaced == old(self)@[id@],
                None => !old(self)@.contains_key(id@),
            },
    {
        let ghost whole = self@;
        let replaced = self.take(id.as_str());
        proof {
            use_type_invariant(&*self);
        }
        let ghost before = self.entries@;
        let ghost key = id@;
        let mut entries: Vec<(String, H)> = Vec::new();
        std::mem::swap(&mut entries, &mut self.entries);
        entries.push((id, handle));
        proof {
            assert(!handles(before).contains_key(key));
            position_facts(before, key);
            assert(distinct(entries@)) by {
                assert forall|i: int, j: int| 0 <= i < j < entries@.len() implies (
                #[trigger] entries@[i]).0@ != (#[trigger] entries@[j]).0@ by {
                    assert(entries@[i] == before[i]);
                    if j < before.len() {
                        assert(entries@[j] == before[j]);
                    }
                }
            }
            let after = handles(entries@);
            let expected = handles(before).insert(key, handle);
            assert forall|k: Seq<char>|
                #![trigger after.dom().contains(k)]
                #![trigger expected.dom().contains(k)]
                #![trigger after[k]]
                after.dom().contains(k) == expected.dom().contains(k) && (after.dom().contains(k)
                    ==> after[k] == expected[k]) by {
                position_facts(before, k);
                position_facts(entries@, k);
                let p = position(before, k);
                let q = position(entries@, k);
                if p < before.len() {
                    assert(entries@[p] == before[p]);
                    position_is(entries@, k, p);
                } else if k == key {
                    position_is(entries@, k, before.len() as int);
                } else if q < before.len() {
                    assert(entries@[q] == before[q]);
                }
            }
            assert(after =~= expected);
            assert(whole.remove(key).insert(key, handle) =~= whole.insert(key, handle));
        }
        self.entries = entries;
        replaced
    }
}

impl<H> Default for ExecRegistry<H> {
    fn default() -> (res: Self)
        ensures
            res@ == Map::<Seq<char>, H>::empty(),
    {
        ExecRegistry::new()
    }
}

/// What registering the handle of a command makes of the registry. A command
/// without an id is not registered.
pub open spec fn registered<H>(
    handles: Map<Seq<char>, H>,
    process_id: Option<Seq<char>>,
    handle: H,
) -> Map<Seq<char>, H> {
    match process_id {
        Some(id) => handles.insert(id, handle),
        None => handles,
    }
}

/// What the end of a command makes of the registry.
pub open spec fn unregistered<H>(
    handles: Map<Seq<char>, H>,
    process_id: Option<Seq<char>>,
) -> Map<Seq<char>, H> {
    match process_id {
        Some(id) => handles.remove(id),
        None => handles,
    }
}

/// Registers the handle of a command that has an id, and says whether it has
/// one. A handle that stood under the same id is dropped.
pub fn register_termination<H>(
    registry: &mut ExecRegistry<H>,
    process_id: Option<&str>,
    handle: H,
) -> (res: bool)
    ensures
        final(registry)@ == registered(
            old(registry)@,
            crate::text::optional_str(process_id),
            handle,
        ),
        process_id matches Some(id) ==> final(registry)@ == old(registry)@.insert(id@, handle),
        process_id is None ==> final(registry)@ == old(registry)@,
        res == process_id is Some,
{
    match process_id {
        Some(id) => {
            registry.insert(id.to_owned(), handle);
            true
        },
        None => false,
    }
}

/// Drops the handle of a command that ended.
pub fn unregister_process<H>(registry: &mut ExecRegistry<H>, process_id: Option<&str>)
    ensures
        final(registry)@ == unregistered(old(registry)@, crate::text::optional_str(process_id)),
        process_id matches Some(id) ==> final(registry)@ == old(registry)@.remove(id@),
        process_id is None ==> final(registry)@ == old(registry)@,
{
    if let Some(id) = process_id {
        registry.take(id);
    }
}

/// Takes out the handle by which a client ends its command, if there is one. An
/// id that is not known is no error.
pub fn handle_command_exec_terminate<H>(
    registry: &mut ExecRegistry<H>,
    params: &CommandExecTerminateParams,
) -> (res: Option<H>)
    ensures
        final(registry)@ == old(registry)@.remove(params.process_id@),
        match res {
            Some(handle) => old(registry)@.contains_key(params.process_id@) && handle == old(
                registry,
            )@[params.process_id@],
            None => !old(registry)@.contains_key(params.process_id@),
        },
{
    registry.take(params.process_id.as_str())
}

/// A command that registers and ends leaves no handle of its id, and touches
/// that of no other.
pub proof fn ended_commands_leave_no_handle<H>(
    handles: Map<Seq<char>, H>,
    id: Seq<char>,
    handle: H,
    other: Seq<char>,
)
    ensures
        ({
            let after = unregistered(registered(handles, Some(id), handle), Some(id));
            &&& !after.contains_key(id)
            &&& other != id ==> after.contains_key(other) == handles.contains_key(other)
            &&& other != id && handles.contains_key(other) ==> after[other] == handles[other]
        }),
{
}

/// A command can be ended once: the handle that was registered last under its id
/// is the one that is taken, and it is not there a second time.
pub proof fn a_command_is_ended_once<H>(handles: Map<Seq<char>, H>, id: Seq<char>, handle: H)
    ensures
        registered(handles, Some(id), handle).contains_key(id),
        registered(handles, Some(id), handle)[id] == handle,
        !registered(handles, Some(id), handle).remove(id).contains_key(id),
{
}

/// Commands of different ids do not touch each other: a handle stays registered
/// while others come and go, and a command without an id changes nothing.
pub proof fn other_handles_stay<H>(
    handles: Map<Seq<char>, H>,
    id: Seq<char>,
    other: Seq<char>,
    handle: H,
)
    requires
        other != id,
    ensures
        handles.contains_key(other) ==> registered(handles, Some(id), handle).contains_key(other)
            && registered(handles, Some(id), handle)[other] == handles[other],
        handles.contains_key(other) ==> unregistered(handles, Some(id)).contains_key(other)
            && unregistered(handles, Some(id))[other] == handles[other],
        !unregistered(handles, Some(id)).contains_key(id),
        registered(handles, None, handle) == handles,
        unregistered(handles, None) == handles,
{
}

} // verus!
