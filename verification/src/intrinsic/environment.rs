//! What the body of an adapter does to the environment, and where that leaves the
//! arguments of the native call.
//!
//! The body is run on names instead of values: each slot of the environment holds a
//! description of what the machine would have bound there. Running the body yields the
//! descriptions of what the native primitive receives, and of what was evaluated on the
//! way and in which order.

use vstd::prelude::*;
use crate::intrinsic::layout::boxing;
use crate::intrinsics::Descriptor;
use crate::sourcemap::Smid;
use crate::syntax::{Form, Ref, Syn, Tag};

verus! {

/// What a slot of the environment holds.
pub enum Slot {
    /// The argument bound to the parameter at this position, as it was passed.
    Param(nat),
    /// What evaluating the content of a slot gives.
    Evaluated(Box<Slot>),
    /// The field of the node with this tag to which the content of a slot evaluates.
    Field(Tag, Box<Slot>),
}

/// What running a body comes to: a call of a native primitive.
pub struct NativeCall {
    /// The contents that were evaluated on the way, in the order of their evaluation.
    pub evaluated: Seq<Slot>,
    /// The number of the native primitive.
    pub intrinsic: u8,
    /// What the native primitive receives, in positional order.
    pub args: Seq<Slot>,
    /// The tag of the node in which the result is boxed, if it is boxed.
    pub boxed: Option<Tag>,
}

/// The environment on entry to a closure of `arity` parameters: the arguments, the
/// first of them innermost.
pub open spec fn parameters(arity: nat) -> Seq<Slot> {
    Seq::new(arity, |i: int| Slot::Param(i as nat))
}

/// What `r` refers to in `env`, if it is the address of one of its slots.
pub open spec fn lookup(env: Seq<Slot>, r: Ref) -> Option<Slot> {
    match r {
        Ref::L(depth) => if depth < env.len() {
            Some(env[depth as int])
        } else {
            None
        },
        Ref::G(_) => None,
    }
}

/// The call of the primitive numbered `intrinsic` on what `args` refer to in `env`, if
/// each of them is the address of one of its slots.
pub open spec fn call(env: Seq<Slot>, intrinsic: u8, args: Seq<Ref>) -> Option<NativeCall> {
    if forall|i: int| 0 <= i < args.len() ==> lookup(env, #[trigger] args[i]) is Some {
        Some(
            NativeCall {
                evaluated: Seq::empty(),
                intrinsic,
                args: Seq::new(args.len(), |i: int| lookup(env, args[i]).unwrap()),
                boxed: None,
            },
        )
    } else {
        None
    }
}

/// The call `then`, after `slot` was evaluated.
pub open spec fn after(slot: Slot, then: Option<NativeCall>) -> Option<NativeCall> {
    match then {
        Some(c) => Some(NativeCall { evaluated: seq![slot] + c.evaluated, ..c }),
        None => None,
    }
}

/// Runs `body` in `env`. A scope evaluates the slot that it names and binds the outcome,
/// or the field taken out of it, as the new innermost slot; a binding that boxes a
/// result sees the environment of the scope around it. There is no outcome where an
/// address reaches beyond the environment, or where `body` is none of the forms that an
/// adapter is made of.
pub open spec fn run(body: Syn, env: Seq<Slot>) -> Option<NativeCall>
    decreases body,
{
    match body {
        Syn::Bif { intrinsic, args } => call(env, intrinsic, args),
        Syn::Let { bindings, body: inner } => {
            if bindings.len() == 1 {
                match (bindings[0], *inner) {
                    (
                        Form::Value { body: Syn::Bif { intrinsic, args } },
                        Syn::Cons { tag, args: fields },
                    ) => if fields == seq![Ref::L(0)] {
                        match call(env, intrinsic, args) {
                            Some(c) => Some(NativeCall { boxed: Some(tag), ..c }),
                            None => None,
                        }
                    } else {
                        None
                    },
                    _ => None,
                }
            } else {
                None
            }
        },
        Syn::Case { scrutinee, branches, fallback } => {
            match *scrutinee {
                Syn::Atom { evaluand } => match lookup(env, evaluand) {
                    Some(slot) => {
                        if branches.len() == 0 && fallback is Some {
                            after(
                                slot,
                                run(
                                    *fallback.unwrap(),
                                    seq![Slot::Evaluated(Box::new(slot))] + env,
                                ),
                            )
                        } else if branches.len() == 1 && fallback is None {
                            after(
                                slot,
                                run(
                                    branches[0].1,
                                    seq![Slot::Field(branches[0].0, Box::new(slot))] + env,
                                ),
                            )
                        } else {
                            None
                        }
                    },
                    None => None,
                },
                _ => None,
            }
        },
        _ => None,
    }
}

/// Enters a closure made from `form` with its arguments bound as parameters, and runs
/// its body.
pub open spec fn enter(form: Form) -> Option<NativeCall> {
    match form {
        Form::Lambda { bound, body, annotation } => run(body, parameters(bound as nat)),
        Form::Value { body } => run(body, Seq::empty()),
    }
}

/// The positions of the arguments among `slots`, in the order in which they occur.
pub open spec fn arguments_in(slots: Seq<Slot>) -> Seq<int>
    decreases slots.len(),
{
    if slots.len() == 0 {
        Seq::empty()
    } else {
        let rest = arguments_in(slots.drop_first());
        match slots[0] {
            Slot::Param(position) => seq![position as int] + rest,
            _ => rest,
        }
    }
}

impl Descriptor {
    /// What the native primitive is to receive for the argument at `position`: a strict
    /// argument evaluated, and taken out of its box where its type is a boxed one; any
    /// other argument as it was passed.
    pub open spec fn operand(self, position: int) -> Slot {
        let passed = Slot::Param(position as nat);
        if self.is_strict(position) {
            match boxing(self.arg(position)) {
                Some(constructor) => Slot::Evaluated(
                    Box::new(Slot::Field(constructor.spec_tag(), Box::new(passed))),
                ),
                None => Slot::Evaluated(Box::new(passed)),
            }
        } else {
            passed
        }
    }

    /// What is bound, innermost first, while the argument at `position` is evaluated.
    pub open spec fn bound_by(self, position: int) -> Seq<Slot> {
        let passed = Slot::Param(position as nat);
        match boxing(self.arg(position)) {
            Some(constructor) => {
                let field = Slot::Field(constructor.spec_tag(), Box::new(passed));
                seq![Slot::Evaluated(Box::new(field)), field]
            },
            None => seq![Slot::Evaluated(Box::new(passed))],
        }
    }

    /// What is evaluated, in this order, to evaluate the argument at `position`.
    pub open spec fn evaluated_for(self, position: int) -> Seq<Slot> {
        let passed = Slot::Param(position as nat);
        match boxing(self.arg(position)) {
            Some(constructor) => seq![
                passed,
                Slot::Field(constructor.spec_tag(), Box::new(passed)),
            ],
            None => seq![passed],
        }
    }

    /// What is to be evaluated, in this order, for the strict arguments from the `k`-th
    /// on: each argument itself and then, where its type is a boxed one, the field of
    /// its box.
    pub open spec fn evaluations(self, k: nat) -> Seq<Slot>
        decreases self.strict.len() - k,
    {
        if k >= self.strict.len() {
            Seq::empty()
        } else {
            self.evaluated_for(self.strict[k as int] as int) + self.evaluations(k + 1)
        }
    }

    /// The environment once the first `k` strict arguments are evaluated.
    pub open spec fn environment(self, k: nat) -> Seq<Slot>
        decreases k,
    {
        if k == 0 {
            parameters(self.arity())
        } else {
            self.bound_by(self.strict[k - 1] as int) + self.environment((k - 1) as nat)
        }
    }

    /// The native call that the adapter is to make.
    pub open spec fn intended_call(self, index: u8) -> NativeCall {
        NativeCall {
            evaluated: self.evaluations(0),
            intrinsic: index,
            args: Seq::new(self.arity(), |i: int| self.operand(i)),
            boxed: match self.result_box() {
                Some(constructor) => Some(constructor.spec_tag()),
                None => None,
            },
        }
    }
}

impl Descriptor {
    /// Each strict argument adds as many slots to the environment as it opens scopes.
    pub proof fn lemma_environment_len(self, k: nat)
        ensures
            self.environment(k).len() == self.offset(k) + self.arity(),
        decreases k,
    {
        if k > 0 {
            self.lemma_environment_len((k - 1) as nat);
        }
    }

    /// The parameters lie under all the scopes opened so far.
    pub proof fn lemma_environment_param(self, k: nat, position: int)
        requires
            0 <= position < self.arity(),
        ensures
            self.environment(k)[self.offset(k) + position] == Slot::Param(position as nat),
        decreases k,
    {
        if k > 0 {
            let bound = self.bound_by(self.strict[k - 1] as int);
            let outer = self.environment((k - 1) as nat);
            self.lemma_environment_param((k - 1) as nat, position);
            self.lemma_environment_len((k - 1) as nat);
            // what was bound last lies above the environment so far
            assert(bound.len() == self.layers(self.strict[k - 1] as int));
            assert((bound + outer)[self.offset(k) + position] == outer[self.offset(
                (k - 1) as nat,
            ) + position]);
        }
    }

    /// The value of a strict argument lies under the scopes of the strict arguments
    /// evaluated after it.
    pub proof fn lemma_environment_value(self, k: nat, j: int)
        requires
            self.wf(),
            0 <= j < k <= self.strict.len(),
        ensures
            0 <= self.offset(k) - self.offset((j + 1) as nat) < self.environment(k).len(),
            self.environment(k)[self.offset(k) - self.offset((j + 1) as nat)] == self.operand(
                self.strict[j] as int,
            ),
        decreases k,
    {
        self.lemma_environment_len(k);
        self.lemma_offset_grows((j + 1) as nat, k);
        if j == k - 1 {
            self.lemma_rank(j);
        } else {
            self.lemma_environment_value((k - 1) as nat, j);
            self.lemma_offset_grows((j + 1) as nat, (k - 1) as nat);
        }
    }

    /// In the environment that the strict arguments from the `k`-th on expect, their
    /// scopes evaluate them in turn and then go on with `inner` in the environment that
    /// it expects.
    pub proof fn lemma_scopes_run(self, k: nat, inner: Syn, then: NativeCall)
        requires
            self.wf(),
            self.arity() <= u8::MAX,
            k <= self.strict.len(),
            run(inner, self.environment(self.strict.len())) == Some(then),
        ensures
            run(self.scopes(k, inner), self.environment(k)) == Some(
                (NativeCall { evaluated: self.evaluations(k) + then.evaluated, ..then }),
            ),
        decreases self.strict.len() - k,
    {
        if k < self.strict.len() {
            let position = self.strict[k as int] as int;
            let env = self.environment(k);
            let passed = Slot::Param(position as nat);
            let rest = self.scopes(k + 1, inner);
            let later = self.evaluations(k + 1) + then.evaluated;
            self.lemma_strict_count();
            self.lemma_offset_step(k);
            self.lemma_environment_len(k);
            self.lemma_environment_param(k, position);
            self.lemma_scopes_run(k + 1, inner, then);
            match boxing(self.arg(position)) {
                Some(constructor) => {
                    // the scope that unboxes sees the parameter, the scope that
                    // evaluates the field sees the field as the innermost slot
                    let field = Slot::Field(constructor.spec_tag(), Box::new(passed));
                    let unboxed = seq![field] + env;
                    let forcing = Syn::force(Syn::local(0), rest);
                    assert(seq![Slot::Evaluated(Box::new(field))] + unboxed
                        =~= self.environment(k + 1));
                    assert(run(self.scopes(k, inner), env) == after(
                        passed,
                        run(forcing, unboxed),
                    ));
                    assert(seq![passed] + (seq![field] + later) =~= self.evaluations(k)
                        + then.evaluated);
                },
                None => {
                    assert(seq![Slot::Evaluated(Box::new(passed))] + env =~= self.environment(
                        k + 1,
                    ));
                    assert(seq![passed] + later =~= self.evaluations(k) + then.evaluated);
                },
            }
        }
    }

    /// Under the scopes of all strict arguments, the addresses of the native call are
    /// those of the values that it is to receive.
    pub proof fn lemma_native_call_runs(self, index: u8)
        requires
            self.wf(),
            self.arity() <= u8::MAX,
        ensures
            run(self.native_call(index), self.environment(self.strict.len())) == Some(
                (NativeCall { evaluated: Seq::empty(), ..self.intended_call(index) }),
            ),
    {
        let n = self.strict.len();
        let env = self.environment(n);
        let args = self.native_args();
        self.lemma_strict_count();
        self.lemma_offset_step(n);
        self.lemma_environment_len(n);
        assert forall|i: int| 0 <= i < args.len() implies lookup(env, #[trigger] args[i]) == Some(
            self.operand(i),
        ) by {
            if self.is_strict(i) {
                let r = self.rank(i);
                self.lemma_environment_value(n, r);
            } else {
                self.lemma_environment_param(n, i);
            }
        }
        let slots = Seq::new(args.len(), |i: int| lookup(env, args[i]).unwrap());
        assert(slots =~= Seq::new(self.arity(), |i: int| self.operand(i)));
    }

    /// Entered with its arguments bound as parameters, the adapter evaluates the strict
    /// arguments from left to right, each of a boxed type as the box of its declared type,
    /// and hands the native primitive, in positional order, the values of the strict
    /// arguments and the other arguments as they were passed. Every address in it names
    /// a slot that is bound where the address is used.
    pub proof fn lemma_wrapper_makes_intended_call(self, index: u8, annotation: Smid)
        requires
            self.wf(),
            self.arity() <= u8::MAX,
        ensures
            enter(self.wrapper(index, annotation)) == Some(self.intended_call(index)),
    {
        if self.arity() == 0 {
            let none: Seq<Ref> = Seq::empty();
            let slots = Seq::new(none.len(), |i: int| lookup(Seq::empty(), none[i]).unwrap());
            assert(slots =~= Seq::new(self.arity(), |i: int| self.operand(i)));
            assert(self.evaluations(0) =~= Seq::empty());
        } else {
            self.lemma_native_call_runs(index);
            let then = NativeCall { evaluated: Seq::empty(), ..self.intended_call(index) };
            self.lemma_scopes_run(0, self.native_call(index), then);
            assert(self.evaluations(0) + then.evaluated =~= self.evaluations(0));
        }
    }

    /// The arguments evaluated for the strict positions from the `k`-th on are those
    /// positions, in the order of the list.
    pub proof fn lemma_evaluations_follow_strict(self, k: nat)
        requires
            k <= self.strict.len(),
        ensures
            arguments_in(self.evaluations(k)) == Seq::new(
                (self.strict.len() - k) as nat,
                |i: int| self.strict[k + i] as int,
            ),
        decreases self.strict.len() - k,
    {
        if k < self.strict.len() {
            let position = self.strict[k as int] as int;
            let passed = Slot::Param(position as nat);
            let later = self.evaluations(k + 1);
            self.lemma_evaluations_follow_strict(k + 1);
            match boxing(self.arg(position)) {
                Some(constructor) => {
                    let field = Slot::Field(constructor.spec_tag(), Box::new(passed));
                    assert(self.evaluations(k).drop_first() =~= seq![field] + later);
                    assert((seq![field] + later).drop_first() =~= later);
                    assert(arguments_in(seq![field] + later) == arguments_in(later));
                },
                None => {
                    assert(self.evaluations(k).drop_first() =~= later);
                },
            }
            assert(arguments_in(self.evaluations(k)) == seq![position] + arguments_in(later));
        }
    }

    /// The adapter evaluates exactly the strict arguments, one after another in the
    /// order in which they are declared.
    pub proof fn lemma_evaluates_in_declared_order(self, index: u8, annotation: Smid)
        requires
            self.wf(),
            self.arity() <= u8::MAX,
        ensures
            enter(self.wrapper(index, annotation)) matches Some(made) && arguments_in(
                made.evaluated,
            ) == Seq::new(self.strict.len(), |i: int| self.strict[i] as int),
    {
        self.lemma_wrapper_makes_intended_call(index, annotation);
        self.lemma_evaluations_follow_strict(0);
    }

    /// The outermost scope of the body evaluates the first strict argument, which it
    /// finds at its own parameter position.
    pub proof fn lemma_outermost_scope_is_first_strict(self, index: u8)
        requires
            self.strict.len() > 0,
        ensures
            self.body(index) is Case,
            *self.body(index)->Case_scrutinee == Syn::local(self.strict[0]),
            self.evaluations(0)[0] == Slot::Param(self.strict[0] as nat),
    {
    }
}

} // verus!
