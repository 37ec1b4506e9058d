//! The function table as a mathematical map, and how a list of instances
//! with distinct names stands for it.
use vstd::prelude::*;
use crate::func::FunctionInstance;

verus! {

/// Whether some instance of the list has the name.
pub open spec fn has_name(entries: Seq<FunctionInstance>, name: Seq<char>) -> bool {
    exists|i: int| 0 <= i < entries.len() && #[trigger] entries[i].spec_name() == name
}

/// The place of an instance of that name in the list.
pub open spec fn index_of(entries: Seq<FunctionInstance>, name: Seq<char>) -> int {
    choose|i: int| 0 <= i < entries.len() && #[trigger] entries[i].spec_name() == name
}

/// Whether no two instances of the list share a name.
pub open spec fn names_distinct(entries: Seq<FunctionInstance>) -> bool {
    forall|i: int, j: int|
        0 <= i < entries.len() && 0 <= j < entries.len() && i != j ==> #[trigger] entries[i].spec_name()
            != #[trigger] entries[j].spec_name()
}

/// The map from each name in the list to the instance of that name.
pub open spec fn table_of(entries: Seq<FunctionInstance>) -> Map<Seq<char>, FunctionInstance> {
    Map::new(
        |name: Seq<char>| has_name(entries, name),
        |name: Seq<char>| entries[index_of(entries, name)],
    )
}

/// The names of the list, in its order.
pub open spec fn names_of(entries: Seq<FunctionInstance>) -> Seq<Seq<char>> {
    entries.map_values(|entry: FunctionInstance| entry.spec_name())
}

/// In a list with distinct names, each instance is found under its name.
pub proof fn lemma_lookup(entries: Seq<FunctionInstance>, i: int)
    requires
        names_distinct(entries),
        0 <= i < entries.len(),
    ensures
        table_of(entries).dom().contains(entries[i].spec_name()),
        table_of(entries)[entries[i].spec_name()] == entries[i],
        index_of(entries, entries[i].spec_name()) == i,
{
    let name = entries[i].spec_name();
    assert(has_name(entries, name));
    let j = index_of(entries, name);
    assert(0 <= j < entries.len() && entries[j].spec_name() == name);
}

/// A list of distinct names has as many names as its table has entries, and
/// the table is finite.
pub proof fn lemma_table_len(entries: Seq<FunctionInstance>)
    requires
        names_distinct(entries),
    ensures
        table_of(entries).dom().finite(),
        table_of(entries).dom().len() == entries.len(),
        names_of(entries).no_duplicates(),
        names_of(entries).to_set() == table_of(entries).dom(),
{
    let names = names_of(entries);
    assert(names.no_duplicates()) by {
        assert forall|i: int, j: int| 0 <= i < names.len() && 0 <= j < names.len() && i != j implies names[i]
            != names[j] by {
            assert(entries[i].spec_name() != entries[j].spec_name());
        }
    }
    assert(names.to_set() =~= table_of(entries).dom()) by {
        assert forall|name: Seq<char>| names.to_set().contains(name) <==> table_of(
            entries,
        ).dom().contains(name) by {
            if names.to_set().contains(name) {
                let i = choose|i: int| 0 <= i < names.len() && names[i] == name;
                assert(entries[i].spec_name() == name);
                assert(has_name(entries, name));
            }
            if has_name(entries, name) {
                let i = index_of(entries, name);
                assert(names[i] == name);
                assert(names.contains(name));
            }
        }
    }
    names.unique_seq_to_set();
    vstd::seq_lib::seq_to_set_is_finite(names);
}

/// Adding an instance of a new name adds it to the table.
pub proof fn lemma_push(entries: Seq<FunctionInstance>, entry: FunctionInstance)
    requires
        names_distinct(entries),
        !has_name(entries, entry.spec_name()),
    ensures
        names_distinct(entries.push(entry)),
        table_of(entries.push(entry)) == table_of(entries).insert(entry.spec_name(), entry),
{
    let longer = entries.push(entry);
    assert(names_distinct(longer)) by {
        assert forall|i: int, j: int|
            0 <= i < longer.len() && 0 <= j < longer.len() && i != j implies #[trigger] longer[i].spec_name()
            != #[trigger] longer[j].spec_name() by {
            if i < entries.len() && j < entries.len() {
                assert(entries[i].spec_name() != entries[j].spec_name());
            } else if i < entries.len() {
                assert(entries[i].spec_name() != entry.spec_name());
            } else {
                assert(entries[j].spec_name() != entry.spec_name());
            }
        }
    }
    let after = table_of(entries).insert(entry.spec_name(), entry);
    assert forall|name: Seq<char>| #[trigger] table_of(longer).dom().contains(name) <==> after.dom().contains(
        name,
    ) by {
        if has_name(longer, name) {
            let i = index_of(longer, name);
            if i < entries.len() {
                assert(entries[i].spec_name() == name);
            }
        }
        if has_name(entries, name) {
            let i = index_of(entries, name);
            assert(longer[i].spec_name() == name);
        }
        if name == entry.spec_name() {
            assert(longer[entries.len() as int].spec_name() == name);
        }
    }
    assert forall|name: Seq<char>| #[trigger] table_of(longer).dom().contains(name) implies table_of(longer)[name]
        == after[name] by {
        let i = index_of(longer, name);
        lemma_lookup(longer, i);
        if i < entries.len() {
            assert(entries[i].spec_name() == name);
            lemma_lookup(entries, i);
        }
    }
    assert(table_of(longer) =~= after);
}

/// Taking an instance out of the list takes its name out of the table.
pub proof fn lemma_remove(entries: Seq<FunctionInstance>, i: int)
    requires
        names_distinct(entries),
        0 <= i < entries.len(),
    ensures
        names_distinct(entries.remove(i)),
        !has_name(entries.remove(i), entries[i].spec_name()),
        table_of(entries.remove(i)) == table_of(entries).remove(entries[i].spec_name()),
{
    let shorter = entries.remove(i);
    let gone = entries[i].spec_name();
    assert forall|k: int| 0 <= k < shorter.len() implies #[trigger] shorter[k] == entries[if k < i {
        k
    } else {
        k + 1
    }] by {}
    assert(names_distinct(shorter)) by {
        assert forall|a: int, b: int|
            0 <= a < shorter.len() && 0 <= b < shorter.len() && a != b implies #[trigger] shorter[a].spec_name()
            != #[trigger] shorter[b].spec_name() by {
            let a2 = if a < i {
                a
            } else {
                a + 1
            };
            let b2 = if b < i {
                b
            } else {
                b + 1
            };
            assert(entries[a2].spec_name() != entries[b2].spec_name());
        }
    }
    assert(!has_name(shorter, gone)) by {
        if has_name(shorter, gone) {
            let k = index_of(shorter, gone);
            let k2 = if k < i {
                k
            } else {
                k + 1
            };
            assert(entries[k2].spec_name() != entries[i].spec_name());
        }
    }
    let after = table_of(entries).remove(gone);
    assert forall|name: Seq<char>| #[trigger] table_of(shorter).dom().contains(name) <==> after.dom().contains(
        name,
    ) by {
        if has_name(shorter, name) {
            let k = index_of(shorter, name);
            let k2 = if k < i {
                k
            } else {
                k + 1
            };
            assert(entries[k2].spec_name() == name);
        }
        if has_name(entries, name) && name != gone {
            let k = index_of(entries, name);
            let k2 = if k < i {
                k
            } else {
                k - 1
            };
            assert(shorter[k2].spec_name() == name);
        }
    }
    assert forall|name: Seq<char>| #[trigger] table_of(shorter).dom().contains(name) implies table_of(
        shorter,
    )[name] == after[name] by {
        let k = index_of(shorter, name);
        lemma_lookup(shorter, k);
        let k2 = if k < i {
            k
        } else {
            k + 1
        };
        assert(entries[k2].spec_name() == name);
        lemma_lookup(entries, k2);
    }
    assert(table_of(shorter) =~= after);
}

/// The table of the empty list is empty.
pub proof fn lemma_empty()
    ensures
        names_distinct(Seq::<FunctionInstance>::empty()),
        table_of(Seq::<FunctionInstance>::empty()) == Map::<Seq<char>, FunctionInstance>::empty(),
{
    assert(table_of(Seq::<FunctionInstance>::empty()) =~= Map::<Seq<char>, FunctionInstance>::empty());
}

} // verus!
