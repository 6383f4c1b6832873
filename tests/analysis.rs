use form_infer::env::{FormEnv, Indeterminate};
use form_infer::form::{ElemType, Form};
use form_infer::instr::{Context, Function, Instr, Primitive, Signature, TempStack, Value, ValueKind};

fn lit(kind: ValueKind, shape: Vec<usize>) -> Instr {
    Instr::Push(Value { kind, shape })
}

fn unpack(count: usize) -> Instr {
    Instr::Unpack { count, span: 0, unbox: false }
}

fn forms(env: &FormEnv) -> Vec<(ElemType, Vec<usize>)> {
    env.stack.iter().map(|f| (f.ty, f.shape.clone())).collect()
}

fn run(instrs: &[Instr]) -> (Result<(), Indeterminate>, FormEnv) {
    let mut env = FormEnv::new();
    let r = env.instrs(instrs, &Context::new());
    (r, env)
}

fn unmodeled() -> Vec<Instr> {
    let sig = Signature { args: 1, outputs: 1 };
    vec![
        Instr::CallGlobal { index: 0, call: true, sig },
        Instr::BindGlobal { name: String::from("x"), span: 0, index: 0 },
        Instr::BeginArray,
        Instr::EndArray { boxed: false, span: 0 },
        Instr::Prim(Primitive { id: 0 }, 0),
        Instr::ImplPrim(Primitive { id: 1 }, 0),
        Instr::Call(0),
        Instr::Switch { count: 2, sig, span: 0 },
        Instr::Format(vec![String::from("a"), String::from("b")], 0),
        Instr::Dynamic(0),
        Instr::PushTempFunctions(1),
        Instr::PopTempFunctions(1),
        Instr::GetTempFunction { offset: 0, sig, span: 0 },
        Instr::TouchStack { count: 1, span: 0 },
        Instr::PushTemp { stack: TempStack::Inline, count: 1, span: 0 },
        Instr::PopTemp { stack: TempStack::Inline, count: 1, span: 0 },
        Instr::CopyToTemp { stack: TempStack::Under, count: 1, span: 0 },
        Instr::CopyFromTemp { stack: TempStack::Under, offset: 0, count: 1, span: 0 },
        Instr::DropTemp { stack: TempStack::Inline, count: 1, span: 0 },
        Instr::SetOutputComment { i: 0, n: 1 },
    ]
}

#[test]
fn scalar_numeric_push() {
    let (r, env) = run(&[lit(ValueKind::Num, vec![])]);
    assert_eq!(r, Ok(()));
    assert_eq!(forms(&env), vec![(ElemType::Num, vec![])]);
}

#[test]
fn matrix_push() {
    let (r, env) = run(&[lit(ValueKind::Num, vec![3, 2])]);
    assert_eq!(r, Ok(()));
    assert_eq!(forms(&env), vec![(ElemType::Num, vec![3, 2])]);
}

#[test]
fn matrix_push_then_unpack() {
    let (r, env) = run(&[lit(ValueKind::Num, vec![3, 2]), unpack(3)]);
    assert_eq!(r, Ok(()));
    assert_eq!(
        forms(&env),
        vec![(ElemType::Num, vec![2]), (ElemType::Num, vec![2]), (ElemType::Num, vec![2])]
    );
}

#[test]
fn empty_program_accepts() {
    let (r, env) = run(&[]);
    assert_eq!(r, Ok(()));
    assert!(env.stack.is_empty());
    assert!(env.function_stack.is_empty());
    assert!(env.temp_stacks.iter().all(|t| t.is_empty()));
}

#[test]
fn primitive_call_fails_on_any_stack() {
    let prim = Instr::Prim(Primitive { id: 7 }, 0);
    let (r, _) = run(&[prim.clone()]);
    assert_eq!(r, Err(Indeterminate));
    let (r, _) = run(&[lit(ValueKind::Num, vec![4]), lit(ValueKind::Char, vec![]), prim]);
    assert_eq!(r, Err(Indeterminate));
}

#[test]
fn literal_sequence_keeps_order_and_types() {
    let (r, env) = run(&[
        lit(ValueKind::Num, vec![2]),
        lit(ValueKind::Byte, vec![4, 1]),
        lit(ValueKind::Complex, vec![]),
        lit(ValueKind::Char, vec![5]),
        lit(ValueKind::Box, vec![0, 3]),
    ]);
    assert_eq!(r, Ok(()));
    assert_eq!(
        forms(&env),
        vec![
            (ElemType::Num, vec![2]),
            (ElemType::Num, vec![4, 1]),
            (ElemType::Complex, vec![]),
            (ElemType::Char, vec![5]),
            (ElemType::Box, vec![0, 3]),
        ]
    );
}

#[test]
fn unpack_leaves_no_trace_of_original() {
    let (r, env) = run(&[
        lit(ValueKind::Char, vec![]),
        lit(ValueKind::Box, vec![2, 4, 5]),
        unpack(2),
    ]);
    assert_eq!(r, Ok(()));
    assert_eq!(
        forms(&env),
        vec![(ElemType::Char, vec![]), (ElemType::Box, vec![4, 5]), (ElemType::Box, vec![4, 5])]
    );
}

#[test]
fn unpack_zero_consumes_one() {
    let (r, env) = run(&[lit(ValueKind::Num, vec![1]), lit(ValueKind::Char, vec![3, 3]), unpack(0)]);
    assert_eq!(r, Ok(()));
    assert_eq!(forms(&env), vec![(ElemType::Num, vec![1])]);
    let (r, env) = run(&[lit(ValueKind::Num, vec![]), unpack(0)]);
    assert_eq!(r, Ok(()));
    assert!(env.stack.is_empty());
}

#[test]
fn unpack_scalar_keeps_empty_shape() {
    let (r, env) = run(&[lit(ValueKind::Complex, vec![]), unpack(3)]);
    assert_eq!(r, Ok(()));
    assert_eq!(
        forms(&env),
        vec![(ElemType::Complex, vec![]), (ElemType::Complex, vec![]), (ElemType::Complex, vec![])]
    );
}

#[test]
fn pop_empty_is_indeterminate() {
    let mut env = FormEnv::new();
    assert!(env.pop().is_err());
    assert!(env.stack.is_empty());
    let (r, _) = run(&[unpack(1)]);
    assert_eq!(r, Err(Indeterminate));
}

#[test]
fn pop_returns_top() {
    let (_, mut env) = run(&[lit(ValueKind::Num, vec![1]), lit(ValueKind::Char, vec![2])]);
    let f = env.pop().unwrap();
    assert_eq!(f.ty, ElemType::Char);
    assert_eq!(f.shape, vec![2]);
    assert_eq!(forms(&env), vec![(ElemType::Num, vec![1])]);
}

#[test]
fn same_program_twice_same_outcome() {
    let prog = vec![
        lit(ValueKind::Num, vec![3, 2, 2]),
        unpack(2),
        Instr::PushFunc(Function { id: 9 }),
        lit(ValueKind::Byte, vec![]),
    ];
    let (r1, e1) = run(&prog);
    let (r2, e2) = run(&prog);
    assert_eq!(r1, r2);
    assert_eq!(forms(&e1), forms(&e2));
    assert_eq!(e1.function_stack, e2.function_stack);
    let bad = vec![lit(ValueKind::Num, vec![1]), Instr::BeginArray];
    assert_eq!(run(&bad).0, run(&bad).0);
}

#[test]
fn every_unmodeled_instruction_fails() {
    for instr in unmodeled() {
        let mut empty = FormEnv::new();
        assert_eq!(empty.instr(&instr, &Context::new()), Err(Indeterminate));
        let (r, _) = run(&[lit(ValueKind::Num, vec![2]), instr.clone()]);
        assert_eq!(r, Err(Indeterminate));
        let (r, _) = run(&[instr, lit(ValueKind::Num, vec![2])]);
        assert_eq!(r, Err(Indeterminate));
    }
}

#[test]
fn failed_step_leaves_state() {
    let (_, mut env) = run(&[lit(ValueKind::Num, vec![2])]);
    assert_eq!(env.instr(&Instr::Call(0), &Context::new()), Err(Indeterminate));
    assert_eq!(forms(&env), vec![(ElemType::Num, vec![2])]);
}

#[test]
fn bookkeeping_is_noop() {
    let (r, env) = run(&[
        Instr::Comment(String::from("note")),
        Instr::PushSig(Signature { args: 0, outputs: 1 }),
        lit(ValueKind::Num, vec![]),
        Instr::PopSig,
    ]);
    assert_eq!(r, Ok(()));
    assert_eq!(forms(&env), vec![(ElemType::Num, vec![])]);
    assert!(env.function_stack.is_empty());
}

#[test]
fn function_push_goes_to_function_stack() {
    let (r, env) = run(&[Instr::PushFunc(Function { id: 1 }), Instr::PushFunc(Function { id: 2 })]);
    assert_eq!(r, Ok(()));
    assert!(env.stack.is_empty());
    assert_eq!(env.function_stack, vec![Function { id: 1 }, Function { id: 2 }]);
}

#[test]
fn primitive_rule_always_fails() {
    let (_, mut env) = run(&[lit(ValueKind::Num, vec![5])]);
    assert_eq!(env.prim(Primitive { id: 3 }, &Context::new()), Err(Indeterminate));
    assert_eq!(forms(&env), vec![(ElemType::Num, vec![5])]);
}

#[test]
fn form_new_and_duplicate() {
    let f = Form::new(ElemType::Box, vec![1, 2]);
    let g = f.duplicate();
    assert_eq!(g.ty, ElemType::Box);
    assert_eq!(g.shape, vec![1, 2]);
}
