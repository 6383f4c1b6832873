//! Properties of the analysis, stated over the machine's model and proved.
use vstd::prelude::*;

use crate::env::{
    cell_shape, lemma_run_prefix_fails, literal_form, run_model, step_model, unpacked, with_main,
    EnvView,
};
use crate::form::FormView;
use crate::instr::{elem_type_of, is_modeled, Instr, Value};

verus! {

/// The forms that a sequence of literal pushes derives, in order.
pub open spec fn literal_forms(instrs: Seq<Instr>) -> Seq<FormView> {
    instrs.map_values(|i: Instr| literal_form(i->Push_0))
}

/// A sequence of literal pushes succeeds and leaves on top of the main stack
/// the forms derived from each literal, in order; nothing else changes.
pub proof fn lemma_literal_pushes(s: EnvView, instrs: Seq<Instr>)
    requires
        forall|i: int| 0 <= i < instrs.len() ==> #[trigger] instrs[i] is Push,
    ensures
        run_model(s, instrs) == Some(with_main(s, s.main + literal_forms(instrs))),
    decreases instrs.len(),
{
    if instrs.len() == 0 {
        assert(s.main + literal_forms(instrs) =~= s.main);
    } else {
        let front = instrs.drop_last();
        assert forall|i: int| 0 <= i < front.len() implies #[trigger] front[i] is Push by {
            assert(front[i] == instrs[i]);
        }
        lemma_literal_pushes(s, front);
        assert(instrs.last() is Push);
        assert(s.main + literal_forms(instrs) =~= (s.main + literal_forms(front)).push(
            literal_form(instrs.last()->Push_0),
        ));
    }
}

/// Pushing an array whose outer dimension is at least one and unpacking it
/// into `k` values leaves exactly `k` forms of its cell shape in its place.
pub proof fn lemma_push_then_unpack(s: EnvView, v: Value, k: usize, span: usize, unbox: bool)
    requires
        v.shape@.len() >= 1,
        v.shape@[0] >= 1,
    ensures
        run_model(s, seq![Instr::Push(v), Instr::Unpack { count: k, span, unbox }]) == Some(
            with_main(
                s,
                s.main + Seq::new(
                    k as nat,
                    |_i: int| (elem_type_of(v.kind), v.shape@.subrange(1, v.shape@.len() as int)),
                ),
            ),
        ),
{
    let p = seq![Instr::Push(v), Instr::Unpack { count: k, span, unbox }];
    assert(p.drop_last() =~= seq![Instr::Push(v)]);
    assert(seq![Instr::Push(v)].drop_last() =~= Seq::<Instr>::empty());
    let t = with_main(s, s.main.push(literal_form(v)));
    assert(run_model(s, Seq::<Instr>::empty()) == Some(s));
    assert(run_model(s, seq![Instr::Push(v)]) == Some(t));
    assert(t.main.drop_last() =~= s.main);
    assert(t.main.last() == literal_form(v));
    let cells = Seq::new(
        k as nat,
        |_i: int| (elem_type_of(v.kind), v.shape@.subrange(1, v.shape@.len() as int)),
    );
    assert(unpacked(t.main, k as nat) =~= s.main + cells);
}

/// Unpacking into zero values consumes exactly the top form, whatever its
/// shape.
pub proof fn lemma_unpack_zero(s: EnvView, span: usize, unbox: bool)
    requires
        s.main.len() >= 1,
    ensures
        step_model(s, Instr::Unpack { count: 0, span, unbox }) == Some(with_main(s, s.main.drop_last())),
{
    let main = s.main;
    let top = main.last();
    assert(main.drop_last() + Seq::new(0, |_i: int| (top.0, cell_shape(top.1))) =~= main.drop_last());
}

/// Unpacking a scalar form pushes copies that are all scalars of its type.
pub proof fn lemma_unpack_scalar(s: EnvView, count: usize, span: usize, unbox: bool)
    requires
        s.main.len() >= 1,
        s.main.last().1.len() == 0,
    ensures
        step_model(s, Instr::Unpack { count, span, unbox }) matches Some(t) && {
            &&& t.main.len() == s.main.len() - 1 + count
            &&& forall|j: int|
                s.main.len() - 1 <= j < t.main.len() ==> #[trigger] t.main[j] == (
                    s.main.last().0,
                    Seq::<usize>::empty(),
                )
        },
{
    assert(s.main.last().1 =~= Seq::<usize>::empty());
}

/// Unpacking from an empty main stack fails.
pub proof fn lemma_unpack_empty_fails(s: EnvView, count: usize, span: usize, unbox: bool)
    requires
        s.main.len() == 0,
    ensures
        step_model(s, Instr::Unpack { count, span, unbox }) is None,
{
}

/// The analysis is a function of its inputs: the same instructions run from
/// the same state give the same outcome.
pub proof fn lemma_run_deterministic(s1: EnvView, s2: EnvView, a: Seq<Instr>, b: Seq<Instr>)
    requires
        s1 == s2,
        a == b,
    ensures
        run_model(s1, a) == run_model(s2, b),
{
}

/// An instruction without a transfer rule fails whatever the state, and a
/// sequence that starts with one fails as a whole.
pub proof fn lemma_unmodeled_fails(s: EnvView, instr: Instr, rest: Seq<Instr>)
    requires
        !is_modeled(instr),
    ensures
        step_model(s, instr) is None,
        run_model(s, seq![instr] + rest) is None,
{
    let all = seq![instr] + rest;
    let first = all.subrange(0, 1);
    assert(first.drop_last() =~= Seq::<Instr>::empty());
    assert(first.last() == instr);
    lemma_run_prefix_fails(s, all, 1);
}

} // verus!
