use vstd::prelude::*;

verus! {

/// Whether some pair of the list carries `name`.
pub open spec fn has_name<V>(pairs: Seq<(Seq<char>, V)>, name: Seq<char>) -> bool {
    exists|i: int| 0 <= i < pairs.len() && (#[trigger] pairs[i]).0 == name
}

/// `i` is the place of the first pair that carries `name`.
pub open spec fn is_first<V>(pairs: Seq<(Seq<char>, V)>, name: Seq<char>, i: int) -> bool {
    &&& 0 <= i < pairs.len()
    &&& pairs[i].0 == name
    &&& forall|j: int| 0 <= j < i ==> (#[trigger] pairs[j]).0 != name
}

/// `i` is the place of the last pair that carries `name`.
pub open spec fn is_last<V>(pairs: Seq<(Seq<char>, V)>, name: Seq<char>, i: int) -> bool {
    &&& 0 <= i < pairs.len()
    &&& pairs[i].0 == name
    &&& forall|j: int| i < j < pairs.len() ==> (#[trigger] pairs[j]).0 != name
}

/// The value bound to `name`. Where the list binds a name more than once,
/// the last binding is the one that counts.
pub open spec fn value_of<V>(pairs: Seq<(Seq<char>, V)>, name: Seq<char>) -> Option<V> {
    if has_name(pairs, name) {
        Some(pairs[choose|i: int| is_last(pairs, name, i)].1)
    } else {
        None
    }
}

/// The list after `name` has been bound to `value`: a pair that already
/// carries the name is replaced where it stands, a new name goes to the end.
pub open spec fn upserted<V>(pairs: Seq<(Seq<char>, V)>, name: Seq<char>, value: V) -> Seq<
    (Seq<char>, V),
> {
    if has_name(pairs, name) {
        pairs.update(choose|i: int| is_first(pairs, name, i), (name, value))
    } else {
        pairs.push((name, value))
    }
}

/// No two pairs of the list carry the same name.
pub open spec fn distinct_names<V>(pairs: Seq<(Seq<char>, V)>) -> bool {
    forall|i: int, j: int|
        0 <= i < j < pairs.len() ==> (#[trigger] pairs[i]).0 != (#[trigger] pairs[j]).0
}

/// Any two first places of one name are the same place.
pub proof fn lemma_first_is_unique<V>(pairs: Seq<(Seq<char>, V)>, name: Seq<char>, i: int, j: int)
    requires
        is_first(pairs, name, i),
        is_first(pairs, name, j),
    ensures
        i == j,
{
    if i < j {
        assert(pairs[i].0 != name);
    }
    if j < i {
        assert(pairs[j].0 != name);
    }
}

/// Any two last places of one name are the same place.
pub proof fn lemma_last_is_unique<V>(pairs: Seq<(Seq<char>, V)>, name: Seq<char>, i: int, j: int)
    requires
        is_last(pairs, name, i),
        is_last(pairs, name, j),
    ensures
        i == j,
{
    if i < j {
        assert(pairs[j].0 != name);
    }
    if j < i {
        assert(pairs[i].0 != name);
    }
}

/// A place known to be the last one of `name` gives the name's value.
pub proof fn lemma_value_at_last<V>(pairs: Seq<(Seq<char>, V)>, name: Seq<char>, i: int)
    requires
        is_last(pairs, name, i),
    ensures
        value_of(pairs, name) == Some(pairs[i].1),
{
    let k = choose|k: int| is_last(pairs, name, k);
    lemma_last_is_unique(pairs, name, i, k);
}

/// Replacing at a place known to be the first one of `name` is the upsert.
pub proof fn lemma_upsert_at_first<V>(pairs: Seq<(Seq<char>, V)>, name: Seq<char>, value: V, i: int)
    requires
        is_first(pairs, name, i),
    ensures
        upserted(pairs, name, value) == pairs.update(i, (name, value)),
{
    let k = choose|k: int| is_first(pairs, name, k);
    lemma_first_is_unique(pairs, name, i, k);
}

/// Binding a name keeps the names of a list distinct.
pub proof fn lemma_upsert_keeps_names_distinct<V>(
    pairs: Seq<(Seq<char>, V)>,
    name: Seq<char>,
    value: V,
)
    requires
        distinct_names(pairs),
    ensures
        distinct_names(upserted(pairs, name, value)),
        value_of(upserted(pairs, name, value), name) == Some(value),
{
    let after = upserted(pairs, name, value);
    if has_name(pairs, name) {
        let k = choose|k: int| is_first(pairs, name, k);
        assert(exists|k: int| is_first(pairs, name, k)) by {
            lemma_has_name_gives_first(pairs, name);
        }
        assert forall|i: int, j: int| 0 <= i < j < after.len() implies (#[trigger] after[i]).0 != (
        #[trigger] after[j]).0 by {
            assert(pairs[i].0 != pairs[j].0);
            if i == k {
                assert(pairs[k].0 == name);
            }
            if j == k {
                assert(pairs[k].0 == name);
            }
        }
        assert(is_last(after, name, k)) by {
            assert forall|j: int| k < j < after.len() implies (#[trigger] after[j]).0 != name by {
                assert(pairs[k].0 != pairs[j].0);
            }
        }
        lemma_value_at_last(after, name, k);
    } else {
        assert forall|i: int, j: int| 0 <= i < j < after.len() implies (#[trigger] after[i]).0 != (
        #[trigger] after[j]).0 by {
            if j < pairs.len() {
                assert(pairs[i].0 != pairs[j].0);
            } else {
                assert(pairs[i].0 != name);
            }
        }
        assert(is_last(after, name, pairs.len() as int));
        lemma_value_at_last(after, name, pairs.len() as int);
    }
}

/// A name that the list carries has a first place in it.
pub proof fn lemma_has_name_gives_first<V>(pairs: Seq<(Seq<char>, V)>, name: Seq<char>)
    requires
        has_name(pairs, name),
    ensures
        exists|k: int| is_first(pairs, name, k),
    decreases pairs.len(),
{
    let w = choose|i: int| 0 <= i < pairs.len() && (#[trigger] pairs[i]).0 == name;
    let head = pairs.take(w);
    if has_name(head, name) {
        lemma_has_name_gives_first(head, name);
        let k = choose|k: int| is_first(head, name, k);
        assert(is_first(pairs, name, k)) by {
            assert(head[k] == pairs[k]);
            assert forall|j: int| 0 <= j < k implies (#[trigger] pairs[j]).0 != name by {
                assert(head[j] == pairs[j]);
            }
        }
    } else {
        assert(is_first(pairs, name, w)) by {
            assert forall|j: int| 0 <= j < w implies (#[trigger] pairs[j]).0 != name by {
                assert(head[j] == pairs[j]);
            }
        }
    }
}

} // verus!
