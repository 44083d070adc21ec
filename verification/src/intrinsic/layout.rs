//! Where the adapter of a built-in operation finds its arguments, and the shape of the
//! adapter as a mathematical value.
//!
//! Evaluating a strict argument opens new innermost scopes: one for the evaluated value
//! and, where the argument is boxed, one more for the field taken out of the box. Every
//! scope shifts the address of all that was bound before it by one. Arguments are
//! evaluated from left to right, so the scopes of the first strict argument are the
//! outermost and its value ends up deepest.

use vstd::prelude::*;
use crate::intrinsics::Descriptor;
use crate::sourcemap::Smid;
use crate::syntax::{Form, Ref, Syn};
use crate::tags::DataConstructor;
use crate::types::IntrinsicType;

verus! {

/// The constructor that boxes values of type `ty`, if there is a type and it is boxed.
pub open spec fn boxing(ty: Option<IntrinsicType>) -> Option<DataConstructor> {
    match ty {
        Some(t) => t.spec_constructor(),
        None => None,
    }
}

impl Descriptor {
    /// The number of scopes that evaluating the argument at `position` opens.
    pub open spec fn layers(self, position: int) -> nat {
        if boxing(self.arg(position)) is Some {
            2
        } else {
            1
        }
    }

    /// The number of scopes that evaluating the first `k` strict arguments opens.
    pub open spec fn offset(self, k: nat) -> nat
        decreases k,
    {
        if k == 0 {
            0
        } else {
            self.offset((k - 1) as nat) + self.layers(self.strict[k - 1] as int)
        }
    }

    /// The number of scopes that evaluating all strict arguments opens.
    pub open spec fn strict_depth(self) -> nat {
        self.offset(self.strict.len())
    }

    /// The place of `position` among the strict positions.
    pub open spec fn rank(self, position: int) -> int {
        choose|k: int| 0 <= k < self.strict.len() && self.strict[k] == position
    }

    /// The address, seen from the native call, of the value to pass for the argument at
    /// `position`: for a strict argument its evaluated value, which lies under the scopes
    /// of the strict arguments after it; for any other the parameter itself, which lies
    /// under all the scopes.
    pub open spec fn native_arg(self, position: int) -> int {
        if self.is_strict(position) {
            self.strict_depth() - self.offset((self.rank(position) + 1) as nat)
        } else {
            self.strict_depth() + position
        }
    }

    /// The arguments of the native call, in positional order.
    pub open spec fn native_args(self) -> Seq<Ref> {
        Seq::new(self.arity(), |i: int| Ref::L(self.native_arg(i) as usize))
    }

    /// The constructor in which the adapter boxes the result of the native primitive,
    /// if it boxes it: that of the result type. The result of an operation without
    /// arguments is left as the native primitive gives it.
    pub open spec fn result_box(self) -> Option<DataConstructor> {
        if self.arity() == 0 {
            None
        } else {
            boxing(self.result())
        }
    }

    /// The call of the native primitive numbered `index`, with its result boxed where it
    /// is to be.
    pub open spec fn native_call(self, index: u8) -> Syn {
        let call = Syn::Bif { intrinsic: index, args: self.native_args() };
        match self.result_box() {
            Some(constructor) => Syn::boxed(constructor.spec_tag(), call),
            None => call,
        }
    }

    /// The scopes that evaluate the strict arguments from the `k`-th on, around `inner`.
    /// The `k`-th strict argument is found under the scopes of those before it.
    pub open spec fn scopes(self, k: nat, inner: Syn) -> Syn
        decreases self.strict.len() - k,
    {
        if k >= self.strict.len() {
            inner
        } else {
            let position = self.strict[k as int] as int;
            let address = (self.offset(k) + position) as usize;
            let rest = self.scopes(k + 1, inner);
            match boxing(self.arg(position)) {
                Some(constructor) => Syn::unbox(
                    constructor.spec_tag(),
                    Syn::local(address),
                    Syn::force(Syn::local(0), rest),
                ),
                None => Syn::force(Syn::local(address), rest),
            }
        }
    }

    /// The body of the adapter: every strict argument evaluated, then the native call.
    pub open spec fn body(self, index: u8) -> Syn {
        self.scopes(0, self.native_call(index))
    }

    /// The adapter of the operation whose native primitive is numbered `index`. An
    /// operation without arguments needs none: it is the bare native call, as a value.
    pub open spec fn wrapper(self, index: u8, annotation: Smid) -> Form {
        if self.arity() == 0 {
            Form::Value { body: Syn::Bif { intrinsic: index, args: Seq::empty() } }
        } else {
            Form::Lambda { bound: self.arity() as u8, body: self.body(index), annotation }
        }
    }

    /// An operation without arguments is adapted by the bare native call, as a value:
    /// nothing is evaluated and nothing is boxed, whatever the type of the result.
    pub proof fn lemma_nullary_is_bare_call(self, index: u8, annotation: Smid)
        requires
            self.arity() == 0,
        ensures
            self.wrapper(index, annotation) == (Form::Value {
                body: Syn::Bif { intrinsic: index, args: Seq::empty() },
            }),
    {
    }

    /// Where no argument is strict the body opens no scope: it is the native call
    /// itself, and the call refers to each parameter at its own position.
    pub proof fn lemma_lazy_passes_parameters(self, index: u8)
        requires
            self.strict.len() == 0,
        ensures
            self.body(index) == self.native_call(index),
            !(self.body(index) is Case),
            self.native_args() == Seq::new(self.arity(), |i: int| Ref::L(i as usize)),
    {
        assert(self.native_args() =~= Seq::new(self.arity(), |i: int| Ref::L(i as usize)));
    }

    /// The `k`-th strict position is at least `k`.
    pub proof fn lemma_strict_at_least(self, k: int)
        requires
            self.wf(),
            0 <= k < self.strict.len(),
        ensures
            self.strict[k] >= k,
        decreases k,
    {
        if k > 0 {
            self.lemma_strict_at_least(k - 1);
        }
    }

    /// There are no more strict positions than arguments.
    pub proof fn lemma_strict_count(self)
        requires
            self.wf(),
        ensures
            self.strict.len() <= self.arity(),
    {
        if self.strict.len() > 0 {
            self.lemma_strict_at_least(self.strict.len() - 1);
        }
    }

    /// The offsets grow by one or two from one strict argument to the next.
    pub proof fn lemma_offset_step(self, k: nat)
        ensures
            self.offset(k) + 1 <= self.offset(k + 1) <= self.offset(k) + 2,
            self.offset(k) <= 2 * k,
    {
        self.lemma_offset_grows(0, k);
    }

    /// The offsets grow with the number of strict arguments, by at most two for each.
    pub proof fn lemma_offset_grows(self, j: nat, k: nat)
        requires
            j <= k,
        ensures
            self.offset(j) + (k - j) <= self.offset(k) <= self.offset(j) + 2 * (k - j),
        decreases k - j,
    {
        if j < k {
            self.lemma_offset_grows(j, (k - 1) as nat);
        }
    }

    /// A strict position has one place among the strict positions.
    pub proof fn lemma_rank(self, k: int)
        requires
            self.wf(),
            0 <= k < self.strict.len(),
        ensures
            self.is_strict(self.strict[k] as int),
            self.rank(self.strict[k] as int) == k,
    {
        let position = self.strict[k] as int;
        let r = self.rank(position);
        assert(0 <= r < self.strict.len() && self.strict[r] == position);
        if r < k {
            assert(self.strict[r] < self.strict[k]);
        } else if k < r {
            assert(self.strict[k] < self.strict[r]);
        }
    }
}

} // verus!
