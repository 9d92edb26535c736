//! An abstract model of the code that the generator emits, and the
//! round-trip law proved over it.
//!
//! A builder value is modeled as one optional slot per field, in declared
//! order. A fresh builder holds every slot absent; the setter of field `i`
//! overwrites slot `i` with its argument and nothing else; `build` succeeds
//! exactly when every slot is present and then returns the slot values in
//! declared order. These spec functions mirror, slot for slot, the
//! initializer, setter and build fragments that [`crate::emit`] pins down.

use vstd::prelude::*;

verus! {

/// The state of a freshly constructed builder for `n` fields: every slot
/// absent.
pub open spec fn empty_builder_state<V>(n: nat) -> Seq<Option<V>> {
    Seq::new(n, |i: int| None)
}

/// What the setter of field `i` does to a builder state: it overwrites slot
/// `i` with its argument and leaves every other slot unchanged.
pub open spec fn set_field<V>(s: Seq<Option<V>>, i: int, v: V) -> Seq<Option<V>> {
    s.update(i, Some(v))
}

/// A chain of setter calls: the setters named by `order` are applied in
/// that order, the setter of field `j` receiving the value `vals[j]`.
pub open spec fn run_setters<V>(s: Seq<Option<V>>, order: Seq<int>, vals: Seq<V>) -> Seq<
    Option<V>,
>
    decreases order.len(),
{
    if order.len() == 0 {
        s
    } else {
        run_setters(set_field(s, order[0], vals[order[0]]), order.drop_first(), vals)
    }
}

/// What `build` yields from a builder state: the slot values in declared
/// order when every slot is present, and nothing otherwise.
pub open spec fn build_output<V>(s: Seq<Option<V>>) -> Option<Seq<V>> {
    if forall|i: int| 0 <= i < s.len() ==> (#[trigger] s[i]) is Some {
        Some(Seq::new(s.len(), |i: int| s[i]->Some_0))
    } else {
        None
    }
}

/// After a chain of setter calls, a slot holds the value assigned to its
/// field if its setter was called at all, and is untouched otherwise:
/// setters are independent of one another and of call order.
pub proof fn lemma_run_setters_frame<V>(s: Seq<Option<V>>, order: Seq<int>, vals: Seq<V>)
    requires
        s.len() == vals.len(),
        forall|k: int| 0 <= k < order.len() ==> 0 <= #[trigger] order[k] < vals.len(),
    ensures
        run_setters(s, order, vals).len() == s.len(),
        forall|i: int| 0 <= i < s.len() ==> #[trigger] run_setters(s, order, vals)[i] == (
        if order.contains(i) {
            Some(vals[i])
        } else {
            s[i]
        }),
    decreases order.len(),
{
    if order.len() == 0 {
    } else {
        let j = order[0];
        let s1 = set_field(s, j, vals[j]);
        let rest = order.drop_first();
        lemma_run_setters_frame(s1, rest, vals);
        assert forall|i: int| 0 <= i < s.len() implies #[trigger] run_setters(s, order, vals)[i]
            == (if order.contains(i) {
            Some(vals[i])
        } else {
            s[i]
        }) by {
            if rest.contains(i) {
                let k = choose|k: int| 0 <= k < rest.len() && rest[k] == i;
                assert(order[k + 1] == i);
                assert(order.contains(i));
            } else if i == j {
                assert(order[0] == i);
                assert(order.contains(i));
                assert(run_setters(s, order, vals)[i] == s1[i]);
            } else {
                assert(run_setters(s, order, vals)[i] == s1[i]);
                assert(s1[i] == s[i]);
                if order.contains(i) {
                    let k = choose|k: int| 0 <= k < order.len() && order[k] == i;
                    assert(k != 0);
                    assert(rest[k - 1] == i);
                    assert(rest.contains(i));
                }
            }
        }
    }
}

/// The round-trip law: when the full set of setters is called on a fresh
/// builder, in any order, each field's setter receiving that field's value,
/// `build` yields exactly the assigned values, in declared order.
pub proof fn lemma_full_setter_round_trip<V>(n: nat, vals: Seq<V>, order: Seq<int>)
    requires
        vals.len() == n,
        order.len() == n,
        forall|k: int| 0 <= k < n ==> 0 <= #[trigger] order[k] < n,
        forall|i: int| 0 <= i < n ==> order.contains(i),
    ensures
        build_output(run_setters(empty_builder_state(n), order, vals)) == Some(vals),
{
    let s0 = empty_builder_state::<V>(n);
    lemma_run_setters_frame(s0, order, vals);
    let fin = run_setters(s0, order, vals);
    assert(forall|i: int| 0 <= i < n ==> (#[trigger] fin[i]) is Some);
    assert(build_output(fin)->Some_0 =~= vals);
}

} // verus!
