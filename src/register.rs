//! A frontend that dispatches incoming calls through a table of procedures
//! registered by name.
use vstd::prelude::*;

use crate::envelope::{Call, Reply};
use crate::error::Error;
use crate::interfaces::Frontend;
use vstd::string::StringExecFns;

verus! {

/// The position of the first entry named `name` at or after `from`.
pub open spec fn position<P>(entries: Seq<(String, P)>, name: Seq<char>, from: int) -> Option<int>
    decreases entries.len() - from,
{
    if from < 0 || from >= entries.len() {
        None
    } else if entries[from].0@ == name {
        Some(from)
    } else {
        position(entries, name, from + 1)
    }
}

/// The procedure registered under `name`, if any.
pub open spec fn lookup<P>(entries: Seq<(String, P)>, name: Seq<char>) -> Option<P> {
    match position(entries, name, 0) {
        Some(i) => Some(entries[i].1),
        None => None,
    }
}

/// Whether no two entries share a name.
pub open spec fn names_unique<P>(entries: Seq<(String, P)>) -> bool {
    forall|i: int, j: int| 0 <= i < j < entries.len() ==> entries[i].0@ != entries[j].0@
}

/// Whether every procedure accepts every call.
pub open spec fn total<P: Fn(Call<String>) -> Result<Reply<String>, Error>>(entries: Seq<(String, P)>) -> bool {
    forall|i: int, c: Call<String>| 0 <= i < entries.len() ==> #[trigger] call_requires(entries[i].1, (c,))
}

/// The procedure of the last entry named `name`, if any.
pub open spec fn last_named<P>(entries: Seq<(String, P)>, name: Seq<char>) -> Option<P>
    decreases entries.len(),
{
    if entries.len() == 0 {
        None
    } else if entries.last().0@ == name {
        Some(entries.last().1)
    } else {
        last_named(entries.drop_last(), name)
    }
}

/// Dispatch table from procedure names to procedures.
pub struct Register<P> {
    procedures: Vec<(String, P)>,
    caller: bool,
}

/// Builder of a [`Register`].
pub struct RegisterBuilder<P> {
    pub procedures: Vec<(String, P)>,
}

proof fn lemma_position_bounds<P>(entries: Seq<(String, P)>, name: Seq<char>, from: int)
    requires
        0 <= from,
    ensures
        position(entries, name, from) matches Some(i) ==> from <= i < entries.len() && entries[i].0@ == name,
        position(entries, name, from) is None ==> forall|i: int| from <= i < entries.len() ==> entries[i].0@ != name,
    decreases entries.len() - from,
{
    if 0 <= from < entries.len() && entries[from].0@ != name {
        lemma_position_bounds(entries, name, from + 1);
    }
}

proof fn lemma_position_unique<P>(entries: Seq<(String, P)>, name: Seq<char>, i: int)
    requires
        names_unique(entries),
        0 <= i < entries.len(),
        entries[i].0@ == name,
    ensures
        position(entries, name, 0) == Some(i),
{
    lemma_position_bounds(entries, name, 0);
    match position(entries, name, 0) {
        Some(j) => {
            assert(j == i);
        },
        None => {},
    }
}

proof fn lemma_position_absent<P>(entries: Seq<(String, P)>, name: Seq<char>)
    requires
        forall|i: int| 0 <= i < entries.len() ==> entries[i].0@ != name,
    ensures
        position(entries, name, 0) is None,
{
    lemma_position_bounds(entries, name, 0);
}

impl<P: Fn(Call<String>) -> Result<Reply<String>, Error>> Register<P> {
    /// A builder with an empty table.
    pub fn builder() -> (r: RegisterBuilder<P>)
        ensures
            r.procedures@.len() == 0,
    {
        RegisterBuilder { procedures: Vec::new() }
    }

    /// Well-formedness: names are unique and every procedure accepts every call.
    pub closed spec fn wf(&self) -> bool {
        names_unique(self.procedures@) && total(self.procedures@)
    }

    /// The procedure registered under `name`, if any.
    pub closed spec fn procedure(&self, name: Seq<char>) -> Option<P> {
        lookup(self.procedures@, name)
    }

    /// Whether the sending pipeline was registered.
    pub closed spec fn caller_registered(&self) -> bool {
        self.caller
    }

    /// Whether outgoing calls can be made through this frontend: fails with
    /// `CallNotRegistered` until the sending pipeline was registered.
    pub fn caller_ready(&self) -> (r: Result<(), Error>)
        ensures
            r is Ok <==> self.caller_registered(),
            r is Err ==> r == Err::<(), Error>(Error::CallNotRegistered),
    {
        if self.caller {
            Ok(())
        } else {
            Err(Error::CallNotRegistered)
        }
    }

    /// The index of the entry named `name`, if any.
    fn find(&self, name: &String) -> (r: Option<usize>)
        ensures
            r matches Some(i) ==> position(self.procedures@, name@, 0) == Some(i as int),
            r is None ==> position(self.procedures@, name@, 0) is None,
    {
        let mut i: usize = 0;
        while i < self.procedures.len()
            invariant
                0 <= i <= self.procedures@.len(),
                position(self.procedures@, name@, 0) == position(self.procedures@, name@, i as int),
            decreases self.procedures@.len() - i,
        {
            if self.procedures[i].0 == *name {
                return Some(i);
            }
            i = i + 1;
        }
        None
    }

    /// Registers `procedure` under `name`, replacing any procedure of that name.
    pub fn register(&mut self, name: &str, procedure: P) -> (r: Result<(), Error>)
        requires
            old(self).wf(),
            forall|c: Call<String>| call_requires(procedure, (c,)),
        ensures
            r is Ok,
            final(self).wf(),
            final(self).caller_registered() == old(self).caller_registered(),
            final(self).procedure(name@) == Some(procedure),
            forall|n: Seq<char>| n != name@ ==> final(self).procedure(n) == old(self).procedure(n),
    {
        let ghost before = self.procedures@;
        let key = String::from_str(name);
        assert(key@ == name@);
        proof {
            lemma_position_bounds(before, name@, 0);
        }
        match self.find(&key) {
            Some(i) => {
                self.procedures[i] = (key, procedure);
                proof {
                    let after = self.procedures@;
                    assert(after =~= before.update(i as int, after[i as int]));
                    assert(before[i as int].0@ == name@);
                    assert forall|a: int, b: int| 0 <= a < b < after.len() implies after[a].0@ != after[b].0@ by {
                        assert(after[a].0@ == before[a].0@);
                        assert(after[b].0@ == before[b].0@);
                    }
                    assert forall|k: int, c: Call<String>| 0 <= k < after.len() implies #[trigger] call_requires(after[k].1, (c,)) by {
                        if k != i {
                            assert(after[k] == before[k]);
                        }
                    }
                    lemma_position_unique(after, name@, i as int);
                    assert forall|n: Seq<char>| n != name@ implies lookup(after, n) == lookup(before, n) by {
                        lemma_position_bounds(before, n, 0);
                        match position(before, n, 0) {
                            Some(j) => {
                                lemma_position_unique(after, n, j);
                            },
                            None => {
                                lemma_position_absent(after, n);
                            },
                        }
                    }
                }
            },
            None => {
                self.procedures.push((key, procedure));
                proof {
                    let after = self.procedures@;
                    assert(after =~= before.push(after[before.len() as int]));
                    assert forall|k: int, c: Call<String>| 0 <= k < after.len() implies #[trigger] call_requires(after[k].1, (c,)) by {
                        if k < before.len() {
                            assert(after[k] == before[k]);
                        }
                    }
                    lemma_position_unique(after, name@, before.len() as int);
                    assert forall|n: Seq<char>| n != name@ implies lookup(after, n) == lookup(before, n) by {
                        lemma_position_bounds(before, n, 0);
                        match position(before, n, 0) {
                            Some(j) => {
                                lemma_position_unique(after, n, j);
                            },
                            None => {
                                lemma_position_absent(after, n);
                            },
                        }
                    }
                }
            },
        }
        Ok(())
    }
}

impl<P: Fn(Call<String>) -> Result<Reply<String>, Error>> RegisterBuilder<P> {
    /// Sets the procedures to register, as (name, procedure) pairs.
    pub fn procedures(self, value: Vec<(String, P)>) -> (r: RegisterBuilder<P>)
        ensures
            r.procedures == value,
    {
        RegisterBuilder { procedures: value }
    }

    /// The table holding the procedures set so far; of two with one name the
    /// later one stays.
    pub fn build(self) -> (r: Result<Register<P>, Error>)
        requires
            total(self.procedures@),
        ensures
            r matches Ok(reg) && reg.wf() && !reg.caller_registered()
                && forall|n: Seq<char>| reg.procedure(n) == last_named(self.procedures@, n),
    {
        let mut reg = Register { procedures: Vec::new(), caller: false };
        let mut rest = self.procedures;
        let ghost all = rest@;
        proof {
            assert forall|n: Seq<char>| reg.procedure(n) == last_named(all.subrange(0, 0), n) by {
                lemma_position_absent(reg.procedures@, n);
            }
        }
        while rest.len() > 0
            invariant
                rest@.len() <= all.len(),
                rest@ =~= all.subrange(all.len() - rest@.len(), all.len() as int),
                total(all),
                reg.wf(),
                !reg.caller,
                forall|n: Seq<char>| reg.procedure(n) == last_named(all.subrange(0, all.len() - rest@.len()), n),
            decreases rest@.len(),
        {
            let ghost k = all.len() - rest@.len();
            let (name, p) = rest.remove(0);
            assert(all[k] == (name, p));
            assert forall|c: Call<String>| call_requires(p, (c,)) by {
                assert(call_requires(all[k].1, (c,)));
            }
            let ghost old_reg = reg;
            let _ = reg.register(name.as_str(), p);
            proof {
                assert(all.subrange(0, k + 1).drop_last() =~= all.subrange(0, k));
                assert(all.subrange(0, k + 1).last() == all[k]);
                assert forall|n: Seq<char>| reg.procedure(n) == last_named(all.subrange(0, k + 1), n) by {
                    if n != name@ {
                        assert(reg.procedure(n) == old_reg.procedure(n));
                    }
                }
                assert(rest@ =~= all.subrange(all.len() - rest@.len(), all.len() as int));
            }
        }
        assert(all.subrange(0, all.len() as int) =~= all);
        Ok(reg)
    }
}

impl<P: Fn(Call<String>) -> Result<Reply<String>, Error>> Frontend for Register<P> {
    open spec fn inv(&self) -> bool {
        self.wf()
    }

    /// An unregistered name gives `ProcedureNotRegistered` with that name; a
    /// registered one gives what its procedure returns for the call.
    open spec fn answers(&self, call: Call<String>, r: Result<Reply<String>, Error>) -> bool {
        match self.procedure(call.procedure@) {
            None => r == Err::<Reply<String>, Error>(Error::ProcedureNotRegistered(call.procedure)),
            Some(p) => call_ensures(p, (call,), r),
        }
    }

    open spec fn has_caller(&self) -> bool {
        self.caller_registered()
    }

    open spec fn register_succeeds(&self) -> bool {
        true
    }

    fn register(&mut self) -> (r: Result<(), Error>) {
        self.caller = true;
        Ok(())
    }

    fn receive(&self, call: Call<String>) -> (r: Result<Reply<String>, Error>) {
        proof {
            lemma_position_bounds(self.procedures@, call.procedure@, 0);
        }
        match self.find(&call.procedure) {
            None => {
                assert(self.procedure(call.procedure@) is None);
                Err(Error::ProcedureNotRegistered(call.procedure))
            },
            Some(i) => {
                let entry = &self.procedures[i];
                assert(self.procedure(call.procedure@) == Some(entry.1));
                assert(call_requires(entry.1, (call,)));
                (entry.1)(call)
            },
        }
    }
}

} // verus!
