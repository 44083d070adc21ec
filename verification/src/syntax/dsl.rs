//! Builders for syntax trees.

use std::rc::Rc;
use vstd::prelude::*;
use crate::sourcemap::Smid;
use crate::syntax::{Form, LambdaForm, Ref, StgSyn, Syn, Tag};
use crate::tags::DataConstructor;

verus! {

/// Address of the slot `index` scopes out from the innermost one.
pub fn lref(index: usize) -> (r: Ref)
    ensures
        r == Ref::L(index),
{
    Ref::L(index)
}

/// Address of the global at `index`.
pub fn gref(index: usize) -> (r: Ref)
    ensures
        r == Ref::G(index),
{
    Ref::G(index)
}

/// A bare reference to a local slot.
pub fn local(index: usize) -> (syn: Rc<StgSyn>)
    ensures
        syn@ == Syn::local(index),
{
    Rc::new(StgSyn::Atom { evaluand: Ref::L(index) })
}

/// A bare reference to a global.
pub fn global(index: usize) -> (syn: Rc<StgSyn>)
    ensures
        syn@ == Syn::global(index),
{
    Rc::new(StgSyn::Atom { evaluand: Ref::G(index) })
}

/// Application of `f` to `args`.
pub fn app(f: Ref, args: Vec<Ref>) -> (syn: Rc<StgSyn>)
    ensures
        syn@ == (Syn::App { callable: f, args: args@ }),
{
    Rc::new(StgSyn::App { callable: f, args })
}

/// Saturated call of the native primitive numbered `index`.
pub fn app_bif(index: u8, args: Vec<Ref>) -> (syn: Rc<StgSyn>)
    ensures
        syn@ == (Syn::Bif { intrinsic: index, args: args@ }),
{
    Rc::new(StgSyn::Bif { intrinsic: index, args })
}

/// Construction of a data node.
pub fn data(tag: Tag, args: Vec<Ref>) -> (syn: Rc<StgSyn>)
    ensures
        syn@ == (Syn::Cons { tag, args: args@ }),
{
    Rc::new(StgSyn::Cons { tag, args })
}

/// Binds `bindings`, each seen from the enclosing scope, around `body`.
pub fn let_(bindings: Vec<LambdaForm>, body: Rc<StgSyn>) -> (syn: Rc<StgSyn>)
    ensures
        syn@ == (Syn::Let {
            bindings: Seq::new(bindings@.len(), |i: int| bindings@[i]@),
            body: Box::new(body@),
        }),
{
    let ghost forms = Seq::new(bindings@.len(), |i: int| bindings@[i]@);
    let syn = Rc::new(StgSyn::Let { bindings, body });
    proof {
        assert(syn@->Let_bindings =~= forms);
    }
    syn
}

/// A template that is already a value.
pub fn value(body: Rc<StgSyn>) -> (lf: LambdaForm)
    ensures
        lf@ == (Form::Value { body: body@ }),
{
    LambdaForm::Value { body }
}

/// A template of `bound` parameters that carries a source tag.
pub fn annotated_lambda(bound: u8, body: Rc<StgSyn>, annotation: Smid) -> (lf: LambdaForm)
    ensures
        lf@ == (Form::Lambda { bound, body: body@, annotation }),
{
    LambdaForm::Lambda { bound, body, annotation }
}

/// Evaluates `scrutinee`, binds the outcome in a new innermost scope and goes on with `then`.
pub fn force(scrutinee: Rc<StgSyn>, then: Rc<StgSyn>) -> (syn: Rc<StgSyn>)
    ensures
        syn@ == Syn::force(scrutinee@, then@),
{
    let syn = Rc::new(StgSyn::Case { scrutinee, branches: Vec::new(), fallback: Some(then) });
    proof {
        assert(syn@->Case_branches =~= Seq::empty());
    }
    syn
}

/// Evaluates `scrutinee`, which must be a node tagged `tag` with one field, binds that
/// field in a new innermost scope and goes on with `then`.
pub fn unbox(tag: Tag, scrutinee: Rc<StgSyn>, then: Rc<StgSyn>) -> (syn: Rc<StgSyn>)
    ensures
        syn@ == Syn::unbox(tag, scrutinee@, then@),
{
    let ghost then_model = then@;
    let mut branches: Vec<(Tag, Rc<StgSyn>)> = Vec::new();
    branches.push((tag, then));
    let syn = Rc::new(StgSyn::Case { scrutinee, branches, fallback: None });
    proof {
        assert(syn@->Case_branches =~= seq![(tag, then_model)]);
    }
    syn
}

/// Takes a number out of its box.
pub fn unbox_num(scrutinee: Rc<StgSyn>, then: Rc<StgSyn>) -> (syn: Rc<StgSyn>)
    ensures
        syn@ == Syn::unbox(DataConstructor::BoxedNumber.spec_tag(), scrutinee@, then@),
{
    unbox(DataConstructor::BoxedNumber.tag(), scrutinee, then)
}

/// Takes a string out of its box.
pub fn unbox_str(scrutinee: Rc<StgSyn>, then: Rc<StgSyn>) -> (syn: Rc<StgSyn>)
    ensures
        syn@ == Syn::unbox(DataConstructor::BoxedString.spec_tag(), scrutinee@, then@),
{
    unbox(DataConstructor::BoxedString.tag(), scrutinee, then)
}

/// Takes a symbol out of its box.
pub fn unbox_sym(scrutinee: Rc<StgSyn>, then: Rc<StgSyn>) -> (syn: Rc<StgSyn>)
    ensures
        syn@ == Syn::unbox(DataConstructor::BoxedSymbol.spec_tag(), scrutinee@, then@),
{
    unbox(DataConstructor::BoxedSymbol.tag(), scrutinee, then)
}

/// Takes a timestamp out of its box.
pub fn unbox_zdt(scrutinee: Rc<StgSyn>, then: Rc<StgSyn>) -> (syn: Rc<StgSyn>)
    ensures
        syn@ == Syn::unbox(DataConstructor::BoxedZdt.spec_tag(), scrutinee@, then@),
{
    unbox(DataConstructor::BoxedZdt.tag(), scrutinee, then)
}

} // verus!
