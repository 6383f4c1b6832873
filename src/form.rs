//! The abstract value: an element type and an array shape.
use vstd::prelude::*;

verus! {

/// The logical kind of the elements of an array, regardless of storage width.
#[derive(Clone, Copy, Debug, PartialEq, Eq, Structural)]
pub enum ElemType {
    Num,
    Complex,
    Char,
    Box,
}

/// The statically known element type and shape of one stack slot.
///
/// A shape lists dimension sizes from the outermost axis inward; an empty
/// shape denotes a scalar.
#[derive(Clone, Debug)]
pub struct Form {
    pub ty: ElemType,
    pub shape: Vec<usize>,
}

/// The mathematical value of a form: its element type and its shape.
pub type FormView = (ElemType, Seq<usize>);

impl View for Form {
    type V = FormView;

    open spec fn view(&self) -> FormView {
        (self.ty, self.shape@)
    }
}

impl Form {
    /// The form of the given element type and shape.
    pub fn new(ty: ElemType, shape: Vec<usize>) -> (r: Form)
        ensures
            r@ == (ty, shape@),
    {
        Form { ty, shape }
    }

    /// A copy of this form holding the same type and shape.
    pub fn duplicate(&self) -> (r: Form)
        ensures
            r@ == self@,
    {
        Form { ty: self.ty, shape: copy_shape(&self.shape) }
    }
}

/// A fresh vector holding the same dimension sizes.
pub fn copy_shape(shape: &Vec<usize>) -> (r: Vec<usize>)
    ensures
        r@ == shape@,
{
    let mut out: Vec<usize> = Vec::new();
    let mut i: usize = 0;
    while i < shape.len()
        invariant
            i <= shape@.len(),
            out@ == shape@.subrange(0, i as int),
        decreases shape@.len() - i,
    {
        out.push(shape[i]);
        i = i + 1;
    }
    proof {
        assert(out@ =~= shape@);
    }
    out
}

} // verus!
