//! The abstract machine: a main stack of forms, a family of named temporary
//! stacks, and a stack of quoted functions awaiting invocation.
use vstd::prelude::*;

use crate::form::{copy_shape, ElemType, Form, FormView};
use crate::instr::{elem_type_of, Context, Function, Instr, Primitive, ValueKind, TEMP_STACK_COUNT};

verus! {

/// The single failure signal: the form of some value could not be determined
/// statically.
#[derive(Clone, Copy, Debug, PartialEq, Eq, Structural)]
pub struct Indeterminate;

/// The mathematical state of the machine.
pub struct EnvView {
    pub main: Seq<FormView>,
    pub temps: Seq<Seq<FormView>>,
    pub funcs: Seq<Function>,
}

/// The mathematical values of a sequence of forms.
pub open spec fn forms_view(s: Seq<Form>) -> Seq<FormView> {
    s.map_values(|f: Form| f@)
}

/// The shape of one cell along the outermost axis; a scalar keeps its empty
/// shape.
pub open spec fn cell_shape(shape: Seq<usize>) -> Seq<usize> {
    if shape.len() == 0 {
        shape
    } else {
        shape.subrange(1, shape.len() as int)
    }
}

/// The form that a literal push derives from its value.
pub open spec fn literal_form(v: crate::instr::Value) -> FormView {
    (elem_type_of(v.kind), v.shape@)
}

/// The state after replacing the main stack.
pub open spec fn with_main(s: EnvView, main: Seq<FormView>) -> EnvView {
    EnvView { main, temps: s.temps, funcs: s.funcs }
}

/// The main stack after unpacking its top form into `count` copies of its
/// cell form.
pub open spec fn unpacked(main: Seq<FormView>, count: nat) -> Seq<FormView> {
    let top = main.last();
    main.drop_last() + Seq::new(count, |_i: int| (top.0, cell_shape(top.1)))
}

/// The transfer function of one instruction: the next state, or `None` where
/// the instruction cannot be modeled.
pub open spec fn step_model(s: EnvView, instr: Instr) -> Option<EnvView> {
    match instr {
        Instr::Comment(_) | Instr::PushSig(_) | Instr::PopSig => Some(s),
        Instr::Push(v) => Some(with_main(s, s.main.push(literal_form(v)))),
        Instr::PushFunc(f) => Some(EnvView { main: s.main, temps: s.temps, funcs: s.funcs.push(f) }),
        Instr::Unpack { count, .. } => {
            if s.main.len() == 0 {
                None
            } else {
                Some(with_main(s, unpacked(s.main, count as nat)))
            }
        },
        _ => None,
    }
}

/// The state after running a whole instruction sequence, or `None` where
/// some instruction cannot be modeled.
pub open spec fn run_model(s: EnvView, instrs: Seq<Instr>) -> Option<EnvView>
    decreases instrs.len(),
{
    if instrs.len() == 0 {
        Some(s)
    } else {
        match run_model(s, instrs.drop_last()) {
            Some(t) => step_model(t, instrs.last()),
            None => None,
        }
    }
}

/// Once a prefix of a sequence fails, the whole sequence fails.
pub proof fn lemma_run_prefix_fails(s: EnvView, instrs: Seq<Instr>, n: int)
    requires
        0 <= n <= instrs.len(),
        run_model(s, instrs.subrange(0, n)) is None,
    ensures
        run_model(s, instrs) is None,
    decreases instrs.len(),
{
    if n == instrs.len() {
        assert(instrs.subrange(0, n) =~= instrs);
    } else {
        assert(instrs.drop_last().subrange(0, n) =~= instrs.subrange(0, n));
        lemma_run_prefix_fails(s, instrs.drop_last(), n);
    }
}

/// Running one more instruction is one more step.
pub proof fn lemma_run_extend(s: EnvView, instrs: Seq<Instr>, i: int)
    requires
        0 <= i < instrs.len(),
    ensures
        run_model(s, instrs.subrange(0, i + 1)) == match run_model(s, instrs.subrange(0, i)) {
            Some(t) => step_model(t, instrs[i]),
            None => None,
        },
{
    let p = instrs.subrange(0, i + 1);
    assert(p.drop_last() =~= instrs.subrange(0, i));
    assert(p.last() == instrs[i]);
}

/// The abstract machine of one analysis run.
pub struct FormEnv {
    pub stack: Vec<Form>,
    pub temp_stacks: [Vec<Form>; TEMP_STACK_COUNT],
    pub function_stack: Vec<Function>,
}

impl View for FormEnv {
    type V = EnvView;

    open spec fn view(&self) -> EnvView {
        EnvView {
            main: forms_view(self.stack@),
            temps: self.temp_stacks@.map_values(|t: Vec<Form>| forms_view(t@)),
            funcs: self.function_stack@,
        }
    }
}

impl FormEnv {
    /// A machine with all stacks empty.
    pub fn new() -> (r: FormEnv)
        ensures
            r@.main.len() == 0,
            r@.funcs.len() == 0,
            r@.temps.len() == TEMP_STACK_COUNT,
            forall|k: int| 0 <= k < r@.temps.len() ==> #[trigger] r@.temps[k].len() == 0,
    {
        FormEnv {
            stack: Vec::new(),
            temp_stacks: [Vec::new(), Vec::new()],
            function_stack: Vec::new(),
        }
    }

    /// Processes the instructions in order, stopping at the first one that
    /// cannot be modeled.
    pub fn instrs(&mut self, instrs: &[Instr], env: &Context) -> (r: Result<(), Indeterminate>)
        ensures
            match run_model(old(self)@, instrs@) {
                Some(t) => r is Ok && final(self)@ == t,
                None => r is Err,
            },
    {
        let mut i: usize = 0;
        proof {
            assert(instrs@.subrange(0, 0) =~= Seq::<Instr>::empty());
        }
        while i < instrs.len()
            invariant
                i <= instrs@.len(),
                run_model(old(self)@, instrs@.subrange(0, i as int)) == Some(self@),
            decreases instrs@.len() - i,
        {
            proof {
                lemma_run_extend(old(self)@, instrs@, i as int);
            }
            let res = self.instr(&instrs[i], env);
            if res.is_err() {
                proof {
                    lemma_run_prefix_fails(old(self)@, instrs@, i + 1);
                }
                return Err(Indeterminate);
            }
            i = i + 1;
        }
        proof {
            assert(instrs@.subrange(0, instrs@.len() as int) =~= instrs@);
        }
        Ok(())
    }

    /// Applies the transfer rule of one instruction.
    pub fn instr(&mut self, instr: &Instr, env: &Context) -> (r: Result<(), Indeterminate>)
        ensures
            match step_model(old(self)@, *instr) {
                Some(t) => r is Ok && final(self)@ == t,
                None => r is Err && final(self)@ == old(self)@,
            },
    {
        match instr {
            Instr::Comment(_) => {},
            Instr::Push(val) => {
                let ty = match val.kind {
                    ValueKind::Num => ElemType::Num,
                    ValueKind::Byte => ElemType::Num,
                    ValueKind::Char => ElemType::Char,
                    ValueKind::Complex => ElemType::Complex,
                    ValueKind::Box => ElemType::Box,
                };
                let ghost pre = self.stack@;
                self.stack.push(Form::new(ty, copy_shape(&val.shape)));
                proof {
                    assert(forms_view(self.stack@) =~= forms_view(pre).push(literal_form(*val)));
                }
            },
            Instr::CallGlobal { .. } => return Err(Indeterminate),
            Instr::BindGlobal { .. } => return Err(Indeterminate),
            Instr::BeginArray => return Err(Indeterminate),
            Instr::EndArray { .. } => return Err(Indeterminate),
            Instr::Prim(..) => return Err(Indeterminate),
            Instr::ImplPrim(..) => return Err(Indeterminate),
            Instr::Call(_) => return Err(Indeterminate),
            Instr::PushFunc(f) => self.function_stack.push(*f),
            Instr::Switch { .. } => return Err(Indeterminate),
            Instr::Format(..) => return Err(Indeterminate),
            Instr::Dynamic(_) => return Err(Indeterminate),
            Instr::Unpack { count, .. } => {
                let form = self.pop()?;
                let ty = form.ty;
                let mut shape = form.shape;
                if shape.len() > 0 {
                    shape.remove(0);
                }
                let cell = Form { ty, shape };
                let ghost base = self@.main;
                let ghost cf = cell@;
                proof {
                    assert(cf == (old(self)@.main.last().0, cell_shape(old(self)@.main.last().1)));
                }
                let mut j: usize = 0;
                while j < *count
                    invariant
                        j <= *count,
                        cell@ == cf,
                        forms_view(self.stack@) == base + Seq::new(j as nat, |_i: int| cf),
                        self.temp_stacks == old(self).temp_stacks,
                        self.function_stack == old(self).function_stack,
                    decreases *count - j,
                {
                    let ghost pre = self.stack@;
                    self.stack.push(cell.duplicate());
                    proof {
                        assert(forms_view(self.stack@) =~= forms_view(pre).push(cf));
                        assert(base + Seq::new((j + 1) as nat, |_i: int| cf) =~= (base + Seq::new(j as nat, |_i: int| cf)).push(cf));
                    }
                    j = j + 1;
                }
                proof {
                    assert(forms_view(self.stack@) =~= unpacked(old(self)@.main, *count as nat));
                }
            },
            Instr::PushTempFunctions(_) => return Err(Indeterminate),
            Instr::PopTempFunctions(_) => return Err(Indeterminate),
            Instr::GetTempFunction { .. } => return Err(Indeterminate),
            Instr::TouchStack { .. } => return Err(Indeterminate),
            Instr::PushTemp { .. } => return Err(Indeterminate),
            Instr::PopTemp { .. } => return Err(Indeterminate),
            Instr::CopyToTemp { .. } => return Err(Indeterminate),
            Instr::CopyFromTemp { .. } => return Err(Indeterminate),
            Instr::DropTemp { .. } => return Err(Indeterminate),
            Instr::SetOutputComment { .. } => return Err(Indeterminate),
            Instr::PushSig(_) => {},
            Instr::PopSig => {},
        }
        Ok(())
    }

    /// The transfer rule of a primitive operator. No primitive has a rule
    /// yet, so every one fails and the machine is left as it was.
    pub fn prim(&mut self, prim: Primitive, env: &Context) -> (r: Result<(), Indeterminate>)
        ensures
            r is Err,
            *final(self) == *old(self),
    {
        Err(Indeterminate)
    }

    /// Removes and returns the top form of the main stack; fails when the
    /// main stack is empty, leaving the machine unchanged.
    pub fn pop(&mut self) -> (r: Result<Form, Indeterminate>)
        ensures
            old(self)@.main.len() == 0 <==> r is Err,
            r is Err ==> final(self)@ == old(self)@,
            r matches Ok(f) ==> {
                &&& f@ == old(self)@.main.last()
                &&& final(self)@ == with_main(old(self)@, old(self)@.main.drop_last())
                &&& final(self).temp_stacks == old(self).temp_stacks
                &&& final(self).function_stack == old(self).function_stack
            },
    {
        let ghost pre = self.stack@;
        match self.stack.pop() {
            Some(f) => {
                proof {
                    assert(forms_view(self.stack@) =~= forms_view(pre).drop_last());
                }
                Ok(f)
            },
            None => Err(Indeterminate),
        }
    }
}

} // verus!
