//! How built-in operations are spliced into the graph that the machine reduces.

use std::rc::Rc;
use vstd::prelude::*;
use crate::error::ExecutionError;
use crate::intrinsics::{index_of, lemma_registered_resolves, registered, Intrinsic, Registry};
use crate::sourcemap::Smid;
use crate::syntax::dsl::{
    annotated_lambda, app, app_bif, data, force, global, gref, let_, local, lref, unbox_num,
    unbox_str, unbox_sym, unbox_zdt, value,
};
use crate::syntax::{Form, LambdaForm, Ref, StgSyn, Syn};
use crate::tags::DataConstructor;
use crate::types::IntrinsicType;

pub mod environment;
pub mod layout;

use crate::intrinsic::environment::enter;
use crate::intrinsic::layout::boxing;

verus! {

/// What every built-in operation offers to the machine.
pub trait StgIntrinsic: Sync {
    /// The state of the machine that native code works on.
    type Machine;

    /// The name of the operation, as a mathematical value.
    spec fn spec_name(&self) -> Seq<char>;

    /// The name of the operation. Its place in the registry is found by it.
    fn name(&self) -> (name: &str)
        ensures
            name@ == self.spec_name(),
    ;

    /// The adapter through which the machine calls the operation. Unless the operation
    /// brings one of its own, it is the one made from the registered descriptor.
    fn wrapper(&self, registry: &Registry, annotation: Smid) -> (lf: LambdaForm)
        requires
            registered(registry@, self.spec_name()),
            index_of(registry@, self.spec_name()) <= u8::MAX,
            registry@[index_of(registry@, self.spec_name())].arity() <= u8::MAX,
            registry@[index_of(registry@, self.spec_name())].wf(),
        default_ensures
            lf@ == registry@[index_of(registry@, self.spec_name())].wrapper(
                index_of(registry@, self.spec_name()) as u8,
                annotation,
            ),
            enter(lf@) == Some(
                registry@[index_of(registry@, self.spec_name())].intended_call(
                    index_of(registry@, self.spec_name()) as u8,
                ),
            ),
    {
        wrap(self.index(registry), self.info(registry), annotation)
    }

    /// Whether a call of the operation may be replaced by its adapter's body.
    fn inlinable(&self) -> (yes: bool)
        default_ensures
            yes,
    {
        true
    }

    /// The index of the operation among the globals: the place of its name in the
    /// registry.
    fn index(&self, registry: &Registry) -> (index: usize)
        requires
            registered(registry@, self.spec_name()),
        ensures
            index == index_of(registry@, self.spec_name()),
    {
        registry.index(self.name()).unwrap()
    }

    /// The descriptor of the operation: the one that the registry holds at its index.
    fn info<'a>(&self, registry: &'a Registry) -> (info: &'a Intrinsic)
        requires
            registered(registry@, self.spec_name()),
        ensures
            info@ == registry@[index_of(registry@, self.spec_name())],
    {
        proof {
            lemma_registered_resolves(registry@, self.spec_name());
        }
        registry.intrinsic(self.index(registry))
    }

    /// Whether the operation brings native code of its own, as a mathematical value. An
    /// operation that brings none exists only as its adapter.
    spec fn spec_native(&self) -> bool;

    /// Whether the operation brings native code of its own. The machine asks this before
    /// it dispatches to [`execute`](StgIntrinsic::execute): to dispatch to an operation
    /// without native code is a fault of the machine, at which it stops.
    fn native(&self) -> (yes: bool)
        ensures
            yes == self.spec_native(),
    ;

    /// Runs the native code of the operation on `args`, whose strict ones the adapter
    /// has evaluated, and leaves the machine as it is after a return of the result.
    ///
    /// Only an operation that brings native code can be dispatched to, and it brings
    /// this method with it. The body given here stands where none was brought: it
    /// leaves the machine alone and names the operation in its report.
    fn execute(&self, machine: &mut Self::Machine, args: &[Ref]) -> (done: Result<
        (),
        ExecutionError,
    >)
        requires
            self.spec_native(),
        default_ensures
            *final(machine) == *old(machine),
            done matches Err(ExecutionError::StgOnly(name)) && name@ == self.spec_name(),
    {
        Err(ExecutionError::StgOnly(self.name().to_owned()))
    }

    /// The address of the operation among the globals.
    fn gref(&self, registry: &Registry) -> (r: Ref)
        requires
            registered(registry@, self.spec_name()),
        ensures
            r == Ref::G(index_of(registry@, self.spec_name()) as usize),
    {
        gref(self.index(registry))
    }
}

/// A built-in constant: a global that is a value and is referred to, not called.
pub trait Const: StgIntrinsic {
    /// The bare reference to the constant's global.
    fn global(&self, registry: &Registry) -> (syn: Rc<StgSyn>)
        requires
            registered(registry@, self.spec_name()),
        ensures
            syn@ == Syn::global(index_of(registry@, self.spec_name()) as usize),
    {
        global(self.index(registry))
    }
}

/// A built-in operation that is called with no arguments.
pub trait CallGlobal0: StgIntrinsic {
    /// The call of the operation's global on the arguments given.
    fn global(&self, registry: &Registry) -> (syn: Rc<StgSyn>)
        requires
            registered(registry@, self.spec_name()),
        ensures
            syn@ == (Syn::App {
                callable: Ref::G(index_of(registry@, self.spec_name()) as usize),
                args: Seq::empty(),
            }),
    {
        let mut args: Vec<Ref> = Vec::new();
        let syn = app(self.gref(registry), args);
        proof {
            assert(args@ =~= Seq::empty());
        }
        syn
    }
}

/// A built-in operation that is called with one argument.
pub trait CallGlobal1: StgIntrinsic {
    /// The call of the operation's global on the arguments given.
    fn global(&self, registry: &Registry, x: Ref) -> (syn: Rc<StgSyn>)
        requires
            registered(registry@, self.spec_name()),
        ensures
            syn@ == (Syn::App {
                callable: Ref::G(index_of(registry@, self.spec_name()) as usize),
                args: seq![x],
            }),
    {
        let mut args: Vec<Ref> = Vec::new();
        args.push(x);
        let syn = app(self.gref(registry), args);
        proof {
            assert(args@ =~= seq![x]);
        }
        syn
    }
}

/// A built-in operation that is called with two arguments.
pub trait CallGlobal2: StgIntrinsic {
    /// The call of the operation's global on the arguments given.
    fn global(&self, registry: &Registry, x: Ref, y: Ref) -> (syn: Rc<StgSyn>)
        requires
            registered(registry@, self.spec_name()),
        ensures
            syn@ == (Syn::App {
                callable: Ref::G(index_of(registry@, self.spec_name()) as usize),
                args: seq![x, y],
            }),
    {
        let mut args: Vec<Ref> = Vec::new();
        args.push(x);
        args.push(y);
        let syn = app(self.gref(registry), args);
        proof {
            assert(args@ =~= seq![x, y]);
        }
        syn
    }
}

/// A built-in operation that is called with three arguments.
pub trait CallGlobal3: StgIntrinsic {
    /// The call of the operation's global on the arguments given.
    fn global(&self, registry: &Registry, x: Ref, y: Ref, z: Ref) -> (syn: Rc<StgSyn>)
        requires
            registered(registry@, self.spec_name()),
        ensures
            syn@ == (Syn::App {
                callable: Ref::G(index_of(registry@, self.spec_name()) as usize),
                args: seq![x, y, z],
            }),
    {
        let mut args: Vec<Ref> = Vec::new();
        args.push(x);
        args.push(y);
        args.push(z);
        let syn = app(self.gref(registry), args);
        proof {
            assert(args@ =~= seq![x, y, z]);
        }
        syn
    }
}

/// A built-in operation that is called with seven arguments.
pub trait CallGlobal7: StgIntrinsic {
    /// The call of the operation's global on the arguments given.
    fn global(
        &self,
        registry: &Registry,
        x0: Ref,
        x1: Ref,
        x2: Ref,
        x3: Ref,
        x4: Ref,
        x5: Ref,
        x6: Ref,
    ) -> (syn: Rc<StgSyn>)
        requires
            registered(registry@, self.spec_name()),
        ensures
            syn@ == (Syn::App {
                callable: Ref::G(index_of(registry@, self.spec_name()) as usize),
                args: seq![x0, x1, x2, x3, x4, x5, x6],
            }),
    {
        let mut args: Vec<Ref> = Vec::new();
        args.push(x0);
        args.push(x1);
        args.push(x2);
        args.push(x3);
        args.push(x4);
        args.push(x5);
        args.push(x6);
        let syn = app(self.gref(registry), args);
        proof {
            assert(args@ =~= seq![x0, x1, x2, x3, x4, x5, x6]);
        }
        syn
    }
}

/// The constructor that boxes values of type `ty`, if there is a type and it is boxed.
fn boxing_of(ty: Option<&IntrinsicType>) -> (constructor: Option<DataConstructor>)
    ensures
        constructor == boxing(
            match ty {
                Some(t) => Some(*t),
                None => None,
            },
        ),
{
    match ty {
        Some(t) => t.constructor(),
        None => None,
    }
}

/// Whether the argument at `position` is strict.
fn is_strict(info: &Intrinsic, position: usize) -> (strict: bool)
    ensures
        strict == info@.is_strict(position as int),
{
    let positions = info.strict_args();
    let n: usize = positions.len();
    let mut k: usize = 0;
    while k < n
        invariant
            n == positions@.len(),
            positions@ == info@.strict,
            k <= n,
            forall|j: int| 0 <= j < k ==> info@.strict[j] != position,
        decreases n - k,
    {
        if positions[k] == position {
            return true;
        }
        k += 1;
    }
    false
}

/// For each number of strict arguments, from none to all, the number of scopes that
/// evaluating that many of them opens.
fn strict_offsets(info: &Intrinsic) -> (offsets: Vec<usize>)
    requires
        info@.wf(),
        info@.arity() <= u8::MAX,
    ensures
        offsets@.len() == info@.strict.len() + 1,
        forall|k: int| 0 <= k <= info@.strict.len() ==> offsets@[k] == info@.offset(k as nat),
{
    let positions = info.strict_args();
    let n: usize = positions.len();
    let mut offset: usize = 0;
    let mut offsets: Vec<usize> = Vec::new();
    offsets.push(0);
    let mut k: usize = 0;
    proof {
        info@.lemma_strict_count();
    }
    while k < n
        invariant
            n == positions@.len(),
            positions@ == info@.strict,
            n <= u8::MAX,
            k <= n,
            offset == info@.offset(k as nat),
            offsets@.len() == k + 1,
            forall|j: int| 0 <= j <= k ==> offsets@[j] == info@.offset(j as nat),
        decreases n - k,
    {
        proof {
            info@.lemma_offset_step(k as nat);
        }
        match boxing_of(info.ty().arg(positions[k])) {
            Some(_) => {
                offset += 2;
            },
            None => {
                offset += 1;
            },
        }
        offsets.push(offset);
        k += 1;
    }
    offsets
}

/// The arguments of the native call, in positional order.
fn native_args(info: &Intrinsic, offsets: &Vec<usize>) -> (args: Vec<Ref>)
    requires
        info@.wf(),
        info@.arity() <= u8::MAX,
        offsets@.len() == info@.strict.len() + 1,
        forall|k: int| 0 <= k <= info@.strict.len() ==> offsets@[k] == info@.offset(k as nat),
    ensures
        args@ == info@.native_args(),
{
    let arity: usize = info.arity();
    let strict_depth: usize = offsets[offsets.len() - 1];
    let ghost d = info@;
    let mut args: Vec<Ref> = Vec::new();
    let mut counter: usize = 1;
    let mut i: usize = 0;
    proof {
        d.lemma_strict_count();
        d.lemma_offset_step(d.strict.len());
    }
    while i < arity
        invariant
            d == info@,
            d.wf(),
            arity == d.arity(),
            arity <= u8::MAX,
            d.strict.len() <= arity,
            strict_depth == d.strict_depth(),
            strict_depth <= 2 * d.strict.len(),
            offsets@.len() == d.strict.len() + 1,
            forall|k: int| 0 <= k <= d.strict.len() ==> offsets@[k] == d.offset(k as nat),
            i <= arity,
            1 <= counter <= d.strict.len() + 1,
            forall|k: int| 0 <= k < counter - 1 ==> d.strict[k] < i,
            forall|k: int| counter - 1 <= k < d.strict.len() ==> d.strict[k] >= i,
            args@.len() == i,
            forall|j: int| 0 <= j < i ==> args@[j] == Ref::L(d.native_arg(j) as usize),
        decreases arity - i,
    {
        let arg: usize;
        if is_strict(info, i) {
            proof {
                let r = d.rank(i as int);
                assert(0 <= r < d.strict.len() && d.strict[r] == i);
                if r > counter - 1 {
                    assert(d.strict[counter - 1] < d.strict[r]);
                }
                assert(r == counter - 1);
                d.lemma_offset_grows(counter as nat, d.strict.len());
            }
            arg = strict_depth - offsets[counter];
            counter += 1;
        } else {
            arg = strict_depth + i;
        }
        args.push(lref(arg));
        i += 1;
    }
    proof {
        assert(args@ =~= d.native_args());
    }
    args
}

/// The scope that takes the field out of a node built by `constructor`.
fn unbox_with(constructor: DataConstructor, scrutinee: Rc<StgSyn>, then: Rc<StgSyn>) -> (syn: Rc<
    StgSyn,
>)
    ensures
        syn@ == Syn::unbox(constructor.spec_tag(), scrutinee@, then@),
{
    match constructor {
        DataConstructor::BoxedNumber => unbox_num(scrutinee, then),
        DataConstructor::BoxedString => unbox_str(scrutinee, then),
        DataConstructor::BoxedSymbol => unbox_sym(scrutinee, then),
        DataConstructor::BoxedZdt => unbox_zdt(scrutinee, then),
    }
}

/// Names the outcome of `call` and wraps it in a node built by `constructor`.
fn box_with(constructor: DataConstructor, call: Rc<StgSyn>) -> (syn: Rc<StgSyn>)
    ensures
        syn@ == Syn::boxed(constructor.spec_tag(), call@),
{
    let ghost call_model = call@;
    let mut bindings: Vec<LambdaForm> = Vec::new();
    bindings.push(value(call));
    let mut fields: Vec<Ref> = Vec::new();
    fields.push(lref(0));
    let syn = let_(bindings, data(constructor.tag(), fields));
    proof {
        assert(syn@->Let_bindings =~= seq![Form::Value { body: call_model }]);
        assert(fields@ =~= seq![Ref::L(0)]);
    }
    syn
}

/// The adapter through which the machine calls the built-in operation that `info`
/// describes and whose native primitive is numbered `index`.
///
/// Entered with the arguments bound as its parameters, the adapter evaluates the strict
/// ones from left to right, takes those of a boxed type out of their boxes, calls the
/// native primitive on the arguments in positional order, and boxes the result where
/// the result type is a boxed one. An operation without arguments needs no adapter: it
/// is the bare native call.
pub fn wrap(index: usize, info: &Intrinsic, annotation: Smid) -> (lf: LambdaForm)
    requires
        index <= u8::MAX,
        info@.arity() <= u8::MAX,
        info@.wf(),
    ensures
        lf@ == info@.wrapper(index as u8, annotation),
        enter(lf@) == Some(info@.intended_call(index as u8)),
{
    let arity: usize = info.arity();
    let primitive: u8 = index as u8;
    let ghost d = info@;
    proof {
        d.lemma_wrapper_makes_intended_call(primitive, annotation);
    }

    // an operation without arguments goes straight to the native primitive
    if arity == 0 {
        return value(app_bif(primitive, Vec::new()));
    }
    let return_type = info.ty().ret(arity - 1);

    // the scopes opened up to each strict argument, and by all of them
    let offsets = strict_offsets(info);

    // evaluating x, then y, then z leaves the value of x deeper than those of y and z;
    // parameters that are not evaluated lie under all the scopes
    let args = native_args(info, &offsets);
    let mut syntax = app_bif(primitive, args);

    // the binding that boxes the result lies inside the call's scope and moves no address
    match boxing_of(return_type) {
        Some(constructor) => {
            syntax = box_with(constructor, syntax);
        },
        None => {},
    }
    assert(syntax@ == d.native_call(primitive));

    // wrap the scopes around the call from the last strict argument outwards; each is
    // addressed under the scopes of the strict arguments before it
    let positions = info.strict_args();
    let mut k: usize = positions.len();
    proof {
        d.lemma_strict_count();
    }
    while k > 0
        invariant
            d == info@,
            d.wf(),
            d.arity() <= u8::MAX,
            d.strict.len() <= d.arity(),
            positions@ == d.strict,
            k <= d.strict.len(),
            offsets@.len() == d.strict.len() + 1,
            forall|j: int| 0 <= j <= d.strict.len() ==> offsets@[j] == d.offset(j as nat),
            syntax@ == d.scopes(k as nat, d.native_call(primitive)),
        decreases k,
    {
        k -= 1;
        let position: usize = positions[k];
        proof {
            d.lemma_offset_step(k as nat);
        }
        let address: usize = offsets[k] + position;
        match boxing_of(info.ty().arg(position)) {
            Some(constructor) => {
                syntax = unbox_with(constructor, local(address), force(local(0), syntax));
            },
            None => {
                syntax = force(local(address), syntax);
            },
        }
    }
    annotated_lambda(arity as u8, syntax, annotation)
}

/// The adapter is a function of the descriptor, the number of the primitive and the
/// source tag alone: made twice from the same, it is the same tree both times.
pub proof fn lemma_wrap_is_repeatable(
    first: LambdaForm,
    second: LambdaForm,
    info: Intrinsic,
    again: Intrinsic,
    index: usize,
    annotation: Smid,
)
    requires
        info@ == again@,
        first@ == info@.wrapper(index as u8, annotation),
        second@ == again@.wrapper(index as u8, annotation),
    ensures
        first@ == second@,
{
}

} // verus!
