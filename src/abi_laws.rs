//! Laws of struct collection and event rendering over whole batches.
use vstd::prelude::*;

use crate::abi::{
    Event, EventParam, StructModel, batch_structs, collect_step, collected,
    declared_struct, event_of, has_struct, is_tuple, param_of, struct_of,
};

verus! {

/// Every parameter of a batch, event after event, in order.
pub open spec fn all_params(events: Seq<Event>) -> Seq<EventParam>
    decreases events.len(),
{
    if events.len() == 0 {
        Seq::empty()
    } else {
        all_params(events.drop_last()) + events.last().inputs@
    }
}

/// No two structs in `s` share a name.
pub open spec fn names_unique(s: Seq<StructModel>) -> bool {
    forall|i: int, j: int|
        0 <= i < s.len() && 0 <= j < s.len() && i != j ==> #[trigger] s[i].name != #[trigger] s[j].name
}

/// `a` is a prefix of `b`.
pub open spec fn is_prefix(a: Seq<StructModel>, b: Seq<StructModel>) -> bool {
    a.len() <= b.len() && forall|i: int| 0 <= i < a.len() ==> #[trigger] b[i] == a[i]
}

proof fn lemma_collected_concat(acc: Seq<StructModel>, a: Seq<EventParam>, b: Seq<EventParam>)
    ensures
        collected(acc, a + b) == collected(collected(acc, a), b),
    decreases b.len(),
{
    if b.len() == 0 {
        assert(a + b =~= a);
    } else {
        assert((a + b).drop_last() =~= a + b.drop_last());
        assert((a + b).last() == b.last());
        lemma_collected_concat(acc, a, b.drop_last());
    }
}

proof fn lemma_collected_prefix(acc: Seq<StructModel>, params: Seq<EventParam>)
    ensures
        is_prefix(acc, collected(acc, params)),
    decreases params.len(),
{
    if params.len() > 0 {
        lemma_collected_prefix(acc, params.drop_last());
    }
}

proof fn lemma_collected_unique(acc: Seq<StructModel>, params: Seq<EventParam>)
    requires
        names_unique(acc),
    ensures
        names_unique(collected(acc, params)),
    decreases params.len(),
{
    if params.len() > 0 {
        lemma_collected_unique(acc, params.drop_last());
        let before = collected(acc, params.drop_last());
        let after = collected(acc, params);
        if let Some(name) = declared_struct(params.last()) {
            if !has_struct(before, name) {
                assert forall|i: int, j: int|
                    0 <= i < after.len() && 0 <= j < after.len() && i != j implies
                    #[trigger] after[i].name != #[trigger] after[j].name by {
                    if i == before.len() {
                        assert(before[j].name != name);
                    } else if j == before.len() {
                        assert(before[i].name != name);
                    }
                }
            }
        }
    }
}

/// A name that neither `acc` holds nor any of `params` declares is not in the
/// collection.
proof fn lemma_collected_absent(acc: Seq<StructModel>, params: Seq<EventParam>, name: Seq<char>)
    requires
        !has_struct(acc, name),
        forall|j: int| 0 <= j < params.len() ==> declared_struct(#[trigger] params[j]) != Some(name),
    ensures
        !has_struct(collected(acc, params), name),
    decreases params.len(),
{
    if params.len() > 0 {
        lemma_collected_absent(acc, params.drop_last(), name);
        assert(declared_struct(params[params.len() - 1]) != Some(name));
    }
}

proof fn lemma_batch_flat(events: Seq<Event>)
    ensures
        batch_structs(events) == collected(Seq::empty(), all_params(events)),
    decreases events.len(),
{
    if events.len() > 0 {
        lemma_batch_flat(events.drop_last());
        lemma_collected_concat(
            Seq::empty(),
            all_params(events.drop_last()),
            events.last().inputs@,
        );
    }
}

proof fn lemma_all_params_concat(e1: Seq<Event>, e2: Seq<Event>)
    ensures
        all_params(e1 + e2) == all_params(e1) + all_params(e2),
    decreases e2.len(),
{
    if e2.len() == 0 {
        assert(e1 + e2 =~= e1);
        assert(all_params(e1) + all_params(e2) =~= all_params(e1));
    } else {
        assert((e1 + e2).drop_last() =~= e1 + e2.drop_last());
        assert((e1 + e2).last() == e2.last());
        lemma_all_params_concat(e1, e2.drop_last());
        assert(all_params(e1 + e2) =~= all_params(e1) + all_params(e2));
    }
}

/// Parameter `k` of `params` declares struct `s`: it is `s`'s source.
pub open spec fn declared_by(s: StructModel, params: Seq<EventParam>, k: int) -> bool {
    0 <= k < params.len() && declared_struct(params[k]) == Some(s.name) && s == struct_of(
        params[k],
        s.name,
    )
}

/// Some parameter of `params` declares `s`.
pub open spec fn has_source(s: StructModel, params: Seq<EventParam>) -> bool {
    exists|k: int| declared_by(s, params, k)
}

/// Each struct of `structs` from position `from` on has a source in `params`.
pub open spec fn sourced_from(structs: Seq<StructModel>, from: int, params: Seq<EventParam>) -> bool {
    forall|i: int| from <= i < structs.len() ==> has_source(#[trigger] structs[i], params)
}

proof fn lemma_collected_sources(acc: Seq<StructModel>, params: Seq<EventParam>)
    ensures
        sourced_from(collected(acc, params), acc.len() as int, params),
    decreases params.len(),
{
    if params.len() > 0 {
        let init = params.drop_last();
        lemma_collected_sources(acc, init);
        lemma_collected_prefix(acc, init);
        let before = collected(acc, init);
        let after = collected(acc, params);
        assert forall|i: int| acc.len() <= i < after.len() implies has_source(
            #[trigger] after[i],
            params,
        ) by {
            if i < before.len() {
                assert(after[i] == before[i]);
                assert(has_source(before[i], init));
                let k = choose|k: int| declared_by(before[i], init, k);
                assert(init[k] == params[k]);
                assert(declared_by(after[i], params, k));
            } else {
                let last = params.len() - 1;
                assert(params.last() == params[last]);
                assert(declared_by(after[i], params, last));
            }
        }
        assert(sourced_from(after, acc.len() as int, params));
    } else {
        assert(collected(acc, params) == acc);
    }
}

/// Every struct of a batch is synthesized from a parameter of the batch that
/// declares it, from that parameter's components; a batch whose parameters
/// declare no struct (plain types, or tuples without a struct annotation)
/// gets none.
pub proof fn law_structs_come_from_declarations(events: Seq<Event>)
    ensures
        sourced_from(batch_structs(events), 0, all_params(events)),
        (forall|k: int| 0 <= k < all_params(events).len() ==> declared_struct(
            #[trigger] all_params(events)[k],
        ) is None) ==> batch_structs(events).len() == 0,
{
    let ps = all_params(events);
    let structs = batch_structs(events);
    lemma_batch_flat(events);
    lemma_collected_sources(Seq::empty(), ps);
    assert(structs == collected(Seq::<StructModel>::empty(), ps));
    if structs.len() > 0 {
        assert(structs[0] == structs[0]);
        assert(has_source(structs[0], ps));
        let k = choose|k: int| declared_by(structs[0], ps, k);
        assert(declared_struct(ps[k]) is Some);
    }
}

/// Struct names are unique across the whole batch: however many events refer
/// to one struct name, exactly one struct of that name is synthesized.
pub proof fn law_struct_names_unique(events: Seq<Event>)
    ensures
        names_unique(batch_structs(events)),
{
    lemma_batch_flat(events);
    lemma_collected_unique(Seq::empty(), all_params(events));
}

/// The first parameter of a batch that declares a struct name fixes that
/// struct: the batch holds exactly one struct of that name, built from that
/// parameter's components. Later declarations of the name, with the same or
/// other components, change nothing.
pub proof fn law_first_definition_wins(events: Seq<Event>, k: int)
    requires
        0 <= k < all_params(events).len(),
        declared_struct(all_params(events)[k]) is Some,
        forall|j: int|
            0 <= j < k ==> declared_struct(#[trigger] all_params(events)[j]) != declared_struct(
                all_params(events)[k],
            ),
    ensures
        ({
            let name = declared_struct(all_params(events)[k])->0;
            let structs = batch_structs(events);
            exists|i: int|
                0 <= i < structs.len() && structs[i] == struct_of(all_params(events)[k], name)
                    && forall|j: int| 0 <= j < structs.len() && #[trigger] structs[j].name == name ==> j == i
        }),
{
    let ps = all_params(events);
    let name = declared_struct(ps[k])->0;
    let before = ps.take(k);
    let rest = ps.skip(k);
    assert(before + rest =~= ps);
    lemma_batch_flat(events);
    lemma_collected_concat(Seq::empty(), before, rest);
    assert forall|j: int| 0 <= j < before.len() implies declared_struct(#[trigger] before[j]) != Some(
        name,
    ) by {
        assert(before[j] == ps[j]);
    }
    lemma_collected_absent(Seq::empty(), before, name);
    let mid = collected(Seq::empty(), before);
    let first = seq![ps[k]];
    let tail = rest.skip(1);
    assert(first + tail =~= rest);
    lemma_collected_concat(mid, first, tail);
    assert(first.drop_last() =~= Seq::<EventParam>::empty());
    assert(collected(mid, first.drop_last()) == mid);
    assert(first.last() == ps[k]);
    assert(declared_struct(ps[k]) == Some(name));
    let with_k = collected(mid, first);
    assert(with_k == mid.push(struct_of(ps[k], name)));
    lemma_collected_prefix(with_k, tail);
    let structs = batch_structs(events);
    assert(structs == collected(with_k, tail));
    let i = mid.len() as int;
    assert(structs[i] == with_k[i]);
    assert(structs[i] == struct_of(ps[k], name));
    lemma_collected_unique(Seq::empty(), ps);
    assert forall|j: int| 0 <= j < structs.len() && #[trigger] structs[j].name == name implies j == i by {
        if j != i {
            assert(structs[i].name != structs[j].name);
        }
    }
}

/// A tuple parameter without an annotation adds no struct and is rendered
/// with the type `tuple`.
pub proof fn law_unannotated_tuple(structs: Seq<StructModel>, p: EventParam)
    requires
        is_tuple(p.ty@),
        p.internal_type is None,
    ensures
        collect_step(structs, p) == structs,
        collected(structs, seq![p]) == structs,
        param_of(p).ty == "tuple"@,
{
    assert(seq![p].drop_last() =~= Seq::<EventParam>::empty());
    assert(collected(structs, seq![p].drop_last()) == structs);
    assert(seq![p].last() == p);
}

/// Struct collection runs over the whole batch: the structs of a batch that
/// continues with more events are those of its first part, kept as they were,
/// followed by what the further events add to them. Events keep their order.
pub proof fn law_batch_scope(first: Seq<Event>, more: Seq<Event>)
    ensures
        batch_structs(first + more) == collected(batch_structs(first), all_params(more)),
        is_prefix(batch_structs(first), batch_structs(first + more)),
        (first + more).map_values(|e: Event| event_of(e)) == first.map_values(|e: Event| event_of(e))
            + more.map_values(|e: Event| event_of(e)),
{
    lemma_batch_flat(first);
    lemma_batch_flat(first + more);
    lemma_all_params_concat(first, more);
    lemma_collected_concat(Seq::empty(), all_params(first), all_params(more));
    lemma_collected_prefix(batch_structs(first), all_params(more));
    assert((first + more).map_values(|e: Event| event_of(e)) =~= first.map_values(
        |e: Event| event_of(e),
    ) + more.map_values(|e: Event| event_of(e)));
}

} // verus!
