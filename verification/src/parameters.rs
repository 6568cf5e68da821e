//! Typed values fixed before a static calculation graph is built, addressed
//! by name.
use vstd::prelude::*;

use crate::error::{OperationError, OperationErrorKind};
use crate::text::text_eq;

verus! {

/// One prepared value.
#[derive(Clone, Copy, Debug, PartialEq, Eq, Structural)]
pub enum PreparedParameter {
    U64(u64),
    I32(i32),
    F32Bits(u32),
    Bool(bool),
}

/// Prepared values keyed by distinct names.
#[derive(Debug)]
pub struct PreparedParameters {
    entries: Vec<(String, PreparedParameter)>,
}

impl PreparedParameters {
    #[verifier::type_invariant]
    spec fn names_distinct(self) -> bool {
        forall|i: int, j: int|
            0 <= i < j < self.entries@.len() ==> #[trigger] self.entries@[i].0@
                != #[trigger] self.entries@[j].0@
    }

    pub closed spec fn holds(self, name: Seq<char>) -> bool {
        exists|i: int| 0 <= i < self.entries@.len() && #[trigger] self.entries@[i].0@ == name
    }

    pub closed spec fn value_of(self, name: Seq<char>) -> PreparedParameter {
        self.entries@[choose|i: int| 0 <= i < self.entries@.len() && #[trigger] self.entries@[i].0@
            == name].1
    }

    /// The named value, if any.
    pub open spec fn lookup(self, name: Seq<char>) -> Option<PreparedParameter> {
        if self.holds(name) {
            Some(self.value_of(name))
        } else {
            None
        }
    }

    /// The name held at a position of the insertion order.
    pub closed spec fn name_at(self, index: int) -> Seq<char> {
        self.entries@[index].0@
    }

    pub closed spec fn count(self) -> nat {
        self.entries@.len()
    }

    pub fn new() -> (parameters: Self)
        ensures
            forall|name: Seq<char>| parameters.lookup(name) is None,
            parameters.count() == 0,
    {
        PreparedParameters { entries: Vec::new() }
    }

    pub fn len(&self) -> (count: usize)
        ensures
            count == self.count(),
    {
        self.entries.len()
    }

    /// The name at position `index` of the insertion order.
    pub fn name(&self, index: usize) -> (name: &str)
        requires
            index < self.count(),
        ensures
            name@ == self.name_at(index as int),
            self.holds(name@),
    {
        let name = self.entries[index].0.as_str();
        assert(self.entries@[index as int].0@ == name@);
        name
    }

    /// Every name held appears at some position of the insertion order.
    pub proof fn lemma_names_cover(self, name: Seq<char>)
        requires
            self.holds(name),
        ensures
            exists|i: int| 0 <= i < self.count() && #[trigger] self.name_at(i) == name,
    {
        let i = choose|i: int| 0 <= i < self.entries@.len() && #[trigger] self.entries@[i].0@ == name;
        assert(self.name_at(i) == name);
    }

    fn position(&self, name: &str) -> (index: Option<usize>)
        ensures
            match index {
                Some(i) => i < self.entries@.len() && self.entries@[i as int].0@ == name@,
                None => !self.holds(name@),
            },
    {
        let mut index: usize = 0;
        while index < self.entries.len()
            invariant
                index <= self.entries@.len(),
                forall|i: int| 0 <= i < index ==> #[trigger] self.entries@[i].0@ != name@,
            decreases self.entries.len() - index,
        {
            if text_eq(self.entries[index].0.as_str(), name) {
                return Some(index);
            }
            index = index + 1;
        }
        None
    }

    /// The value prepared under `name`.
    pub fn get(&self, name: &str) -> (value: Option<PreparedParameter>)
        ensures
            value == self.lookup(name@),
    {
        proof {
            use_type_invariant(self);
        }
        match self.position(name) {
            Some(index) => {
                let value = self.entries[index].1;
                proof {
                    let chosen = choose|i: int|
                        0 <= i < self.entries@.len() && #[trigger] self.entries@[i].0@ == name@;
                    if chosen != index as int {
                        if chosen < index as int {
                            assert(self.entries@[chosen].0@ != self.entries@[index as int].0@);
                        } else {
                            assert(self.entries@[index as int].0@ != self.entries@[chosen].0@);
                        }
                    }
                }
                Some(value)
            },
            None => None,
        }
    }

    /// Record `value` under `name`, replacing any earlier value of that name.
    pub fn insert(&mut self, name: String, value: PreparedParameter)
        ensures
            final(self).lookup(name@) == Some(value),
            forall|other: Seq<char>| other != name@ ==> final(self).lookup(other) == old(self).lookup(other),
    {
        proof {
            use_type_invariant(&*self);
        }
        let ghost old_entries = self.entries@;
        match self.position(name.as_str()) {
            Some(index) => {
                let ghost name_view = name@;
                let mut entries: Vec<(String, PreparedParameter)> = Vec::new();
                std::mem::swap(&mut entries, &mut self.entries);
                entries.set(index, (name, value));
                proof {
                    assert forall|i: int, j: int|
                        0 <= i < j < entries@.len() implies #[trigger] entries@[i].0@
                        != #[trigger] entries@[j].0@ by {
                        assert(old_entries[i].0@ != old_entries[j].0@);
                    }
                }
                self.entries = entries;
                proof {
                    assert forall|other: Seq<char>| other != name_view implies self.lookup(other)
                        == old(self).lookup(other) by {
                        if old(self).holds(other) {
                            let k = choose|i: int|
                                0 <= i < old_entries.len() && #[trigger] old_entries[i].0@ == other;
                            assert(self.entries@[k].0@ == other);
                        }
                        if self.holds(other) {
                            let k = choose|i: int|
                                0 <= i < self.entries@.len() && #[trigger] self.entries@[i].0@ == other;
                            assert(old_entries[k].0@ == other);
                        }
                        if self.holds(other) {
                            let a = choose|i: int|
                                0 <= i < self.entries@.len() && #[trigger] self.entries@[i].0@ == other;
                            let b = choose|i: int|
                                0 <= i < old_entries.len() && #[trigger] old_entries[i].0@ == other;
                            if a != b {
                                if a < b {
                                    assert(old_entries[a].0@ != old_entries[b].0@);
                                } else {
                                    assert(old_entries[b].0@ != old_entries[a].0@);
                                }
                            }
                        }
                    }
                    assert(self.entries@[index as int].0@ == name_view);
                    let c = choose|i: int|
                        0 <= i < self.entries@.len() && #[trigger] self.entries@[i].0@ == name_view;
                    if c != index as int {
                        assert(self.entries@[c] == old_entries[c]);
                        assert(old_entries[c].0@ == name_view);
                        if c < index as int {
                            assert(old_entries[c].0@ != old_entries[index as int].0@);
                        } else {
                            assert(old_entries[index as int].0@ != old_entries[c].0@);
                        }
                    }
                }
            },
            None => {
                let ghost name_view = name@;
                let mut entries: Vec<(String, PreparedParameter)> = Vec::new();
                std::mem::swap(&mut entries, &mut self.entries);
                entries.push((name, value));
                proof {
                    assert forall|i: int, j: int|
                        0 <= i < j < entries@.len() implies #[trigger] entries@[i].0@
                        != #[trigger] entries@[j].0@ by {
                        if j < old_entries.len() {
                            assert(old_entries[i].0@ != old_entries[j].0@);
                        } else {
                            assert(old_entries[i].0@ != name_view);
                        }
                    }
                }
                self.entries = entries;
                proof {
                    assert forall|other: Seq<char>| other != name_view implies self.lookup(other)
                        == old(self).lookup(other) by {
                        if old(self).holds(other) {
                            let k = choose|i: int|
                                0 <= i < old_entries.len() && #[trigger] old_entries[i].0@ == other;
                            assert(self.entries@[k].0@ == other);
                        }
                        if self.holds(other) {
                            let k = choose|i: int|
                                0 <= i < self.entries@.len() && #[trigger] self.entries@[i].0@ == other;
                            assert(old_entries[k].0@ == other);
                        }
                    }
                    assert(self.entries@[old_entries.len() as int].0@ == name_view);
                    let c = choose|i: int|
                        0 <= i < self.entries@.len() && #[trigger] self.entries@[i].0@ == name_view;
                    if c != old_entries.len() as int {
                        assert(old_entries[c].0@ == name_view);
                    }
                }
            },
        }
    }
}

/// The outcome of reading a named unsigned prepared value.
pub open spec fn prepared_u64_spec(parameters: PreparedParameters, name: Seq<char>) -> Result<
    u64,
    OperationErrorKind,
> {
    match parameters.lookup(name) {
        Some(PreparedParameter::U64(value)) => Ok(value),
        Some(_) => Err(OperationErrorKind::PreparedParameterTypeMismatch),
        None => Err(OperationErrorKind::MissingPreparedParameter),
    }
}

/// Read a named unsigned prepared value.
pub fn prepared_u64(parameters: &PreparedParameters, name: &str) -> (value: Result<u64, OperationError>)
    ensures
        match prepared_u64_spec(*parameters, name@) {
            Ok(v) => value == Ok::<u64, OperationError>(v),
            Err(kind) => value matches Err(error) && error.kind == kind,
        },
{
    match parameters.get(name) {
        Some(PreparedParameter::U64(value)) => Ok(value),
        Some(_) => Err(
            OperationError::new(
                OperationErrorKind::PreparedParameterTypeMismatch,
                "prepared parameter has the wrong type, expected U64",
            ),
        ),
        None => Err(
            OperationError::new(
                OperationErrorKind::MissingPreparedParameter,
                "prepared parameter is required",
            ),
        ),
    }
}

} // verus!
