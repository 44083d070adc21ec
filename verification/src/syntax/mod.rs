//! Syntax trees of the machine and their mathematical models.
//!
//! A tree is built once and shared, unchanged, by every closure made from it. Contracts
//! speak of a tree through its model, in which shared subtrees are plain values and
//! vectors are sequences.

use std::rc::Rc;
use vstd::prelude::*;
use crate::sourcemap::Smid;

pub mod dsl;

verus! {

/// Tag of a data constructor.
pub type Tag = u8;

/// Address of a machine-visible slot.
#[derive(Clone, Copy, Debug, PartialEq, Eq, Structural)]
pub enum Ref {
    /// Depth into the current environment, innermost scope first.
    L(usize),
    /// Index into the flat table of globals.
    G(usize),
}

/// Syntax tree that the machine reduces.
#[derive(Clone, Debug, PartialEq, Eq)]
pub enum StgSyn {
    /// A reference, standing for what it refers to.
    Atom { evaluand: Ref },
    /// Evaluates `scrutinee`. Where the outcome is a data node whose tag has a branch,
    /// the branch goes on with the fields of the node bound in a new innermost scope;
    /// otherwise `fallback` goes on with the outcome itself bound there.
    Case {
        scrutinee: Rc<StgSyn>,
        branches: Vec<(Tag, Rc<StgSyn>)>,
        fallback: Option<Rc<StgSyn>>,
    },
    /// Builds a data node with the tag and fields given.
    Cons { tag: Tag, args: Vec<Ref> },
    /// Applies `callable` to `args`.
    App { callable: Ref, args: Vec<Ref> },
    /// Calls the native primitive numbered `intrinsic` on `args`, all of them at once.
    Bif { intrinsic: u8, args: Vec<Ref> },
    /// Binds closures made from `bindings`, each of which sees the enclosing scope
    /// only, in a new innermost scope around `body`.
    Let { bindings: Vec<LambdaForm>, body: Rc<StgSyn> },
}

/// Template from which closures are made.
#[derive(Clone, Debug, PartialEq, Eq)]
pub enum LambdaForm {
    /// A function of `bound` parameters, with the source tag that diagnostics show.
    Lambda { bound: u8, body: Rc<StgSyn>, annotation: Smid },
    /// A closure without parameters whose body is already a value.
    Value { body: Rc<StgSyn> },
}

/// Mathematical model of a syntax tree: [`StgSyn`] with sequences for vectors.
pub enum Syn {
    Atom { evaluand: Ref },
    Case { scrutinee: Box<Syn>, branches: Seq<(Tag, Syn)>, fallback: Option<Box<Syn>> },
    Cons { tag: Tag, args: Seq<Ref> },
    App { callable: Ref, args: Seq<Ref> },
    Bif { intrinsic: u8, args: Seq<Ref> },
    Let { bindings: Seq<Form>, body: Box<Syn> },
}

/// Mathematical model of a closure template: [`LambdaForm`] over [`Syn`].
pub enum Form {
    Lambda { bound: u8, body: Syn, annotation: Smid },
    Value { body: Syn },
}

impl Syn {
    /// A bare reference to the slot `index` scopes out from the innermost one.
    pub open spec fn local(index: usize) -> Syn {
        Syn::Atom { evaluand: Ref::L(index) }
    }

    /// A bare reference to the global at `index`.
    pub open spec fn global(index: usize) -> Syn {
        Syn::Atom { evaluand: Ref::G(index) }
    }

    /// A scope that evaluates `scrutinee` and binds the outcome for `then`.
    pub open spec fn force(scrutinee: Syn, then: Syn) -> Syn {
        Syn::Case {
            scrutinee: Box::new(scrutinee),
            branches: Seq::empty(),
            fallback: Some(Box::new(then)),
        }
    }

    /// A scope that evaluates `scrutinee` to a node tagged `tag` and binds its field for `then`.
    pub open spec fn unbox(tag: Tag, scrutinee: Syn, then: Syn) -> Syn {
        Syn::Case { scrutinee: Box::new(scrutinee), branches: seq![(tag, then)], fallback: None }
    }

    /// Names the outcome of `call` and wraps it in a node tagged `tag`.
    pub open spec fn boxed(tag: Tag, call: Syn) -> Syn {
        Syn::Let {
            bindings: seq![Form::Value { body: call }],
            body: Box::new(Syn::Cons { tag, args: seq![Ref::L(0)] }),
        }
    }
}

impl StgSyn {
    /// The tree as a mathematical value.
    pub open spec fn model(&self) -> Syn
        decreases self,
    {
        match self {
            StgSyn::Atom { evaluand } => Syn::Atom { evaluand: *evaluand },
            StgSyn::Case { scrutinee, branches, fallback } => Syn::Case {
                scrutinee: Box::new(scrutinee.model()),
                branches: Seq::new(
                    branches.len() as nat,
                    |i: int|
                        if 0 <= i < branches.len() {
                            (branches[i].0, branches[i].1.model())
                        } else {
                            arbitrary()
                        },
                ),
                fallback: match fallback {
                    Some(f) => Some(Box::new(f.model())),
                    None => None,
                },
            },
            StgSyn::Cons { tag, args } => Syn::Cons { tag: *tag, args: args@ },
            StgSyn::App { callable, args } => Syn::App { callable: *callable, args: args@ },
            StgSyn::Bif { intrinsic, args } => Syn::Bif { intrinsic: *intrinsic, args: args@ },
            StgSyn::Let { bindings, body } => Syn::Let {
                bindings: Seq::new(
                    bindings.len() as nat,
                    |i: int|
                        if 0 <= i < bindings.len() {
                            bindings[i].model()
                        } else {
                            arbitrary()
                        },
                ),
                body: Box::new(body.model()),
            },
        }
    }
}

impl LambdaForm {
    /// The template as a mathematical value.
    pub open spec fn model(&self) -> Form
        decreases self,
    {
        match self {
            LambdaForm::Lambda { bound, body, annotation } => Form::Lambda {
                bound: *bound,
                body: body.model(),
                annotation: *annotation,
            },
            LambdaForm::Value { body } => Form::Value { body: body.model() },
        }
    }
}

impl View for StgSyn {
    type V = Syn;

    open spec fn view(&self) -> Syn {
        self.model()
    }
}

impl View for LambdaForm {
    type V = Form;

    open spec fn view(&self) -> Form {
        self.model()
    }
}

} // verus!
