use stg_intrinsic::intrinsic::wrap;
use stg_intrinsic::intrinsics::Intrinsic;
use stg_intrinsic::sourcemap::Smid;
use stg_intrinsic::syntax::{LambdaForm, Ref, StgSyn};
use stg_intrinsic::types::{function, num, opaque, str, sym, zdt, IntrinsicType};

/// What a slot of the environment holds while a body is run on names.
#[derive(Clone, Debug, PartialEq, Eq)]
enum Slot {
    Param(usize),
    Evaluated(Box<Slot>),
    Field(u8, Box<Slot>),
}

/// What running a body comes to.
#[derive(Debug, PartialEq, Eq)]
struct NativeCall {
    evaluated: Vec<Slot>,
    intrinsic: u8,
    args: Vec<Slot>,
    boxed: Option<u8>,
}

fn lookup(env: &[Slot], r: &Ref) -> Slot {
    match r {
        Ref::L(depth) => env[env.len() - 1 - depth].clone(),
        Ref::G(index) => panic!("global {} in an adapter", index),
    }
}

/// Runs `body`; the innermost slot of `env` is its last.
fn run(body: &StgSyn, env: &mut Vec<Slot>, evaluated: &mut Vec<Slot>) -> NativeCall {
    match body {
        StgSyn::Bif { intrinsic, args } => NativeCall {
            evaluated: evaluated.clone(),
            intrinsic: *intrinsic,
            args: args.iter().map(|r| lookup(env, r)).collect(),
            boxed: None,
        },
        StgSyn::Let { bindings, body } => {
            assert_eq!(bindings.len(), 1);
            let call = match &bindings[0] {
                LambdaForm::Value { body } => run(body, env, evaluated),
                other => panic!("unexpected binding {:?}", other),
            };
            match &**body {
                StgSyn::Cons { tag, args } => {
                    assert_eq!(args, &vec![Ref::L(0)]);
                    NativeCall { boxed: Some(*tag), ..call }
                }
                other => panic!("unexpected body of a binding {:?}", other),
            }
        }
        StgSyn::Case { scrutinee, branches, fallback } => {
            let slot = match &**scrutinee {
                StgSyn::Atom { evaluand } => lookup(env, evaluand),
                other => panic!("unexpected scrutinee {:?}", other),
            };
            evaluated.push(slot.clone());
            match (branches.as_slice(), fallback) {
                ([], Some(then)) => {
                    env.push(Slot::Evaluated(Box::new(slot)));
                    run(then, env, evaluated)
                }
                ([(tag, then)], None) => {
                    env.push(Slot::Field(*tag, Box::new(slot)));
                    run(then, env, evaluated)
                }
                _ => panic!("unexpected scope"),
            }
        }
        other => panic!("unexpected form {:?}", other),
    }
}

fn enter(form: &LambdaForm) -> NativeCall {
    match form {
        LambdaForm::Lambda { bound, body, .. } => {
            let mut env: Vec<Slot> = (0..*bound as usize).rev().map(Slot::Param).collect();
            run(body, &mut env, &mut Vec::new())
        }
        LambdaForm::Value { body } => run(body, &mut Vec::new(), &mut Vec::new()),
    }
}

fn kinds() -> Vec<IntrinsicType> {
    vec![num(), str(), sym(), zdt(), opaque()]
}

fn tag_of(ty: &IntrinsicType) -> Option<u8> {
    ty.constructor().map(|c| c.tag())
}

/// Checks the adapter of the operation with the argument and result types `types` and
/// the strict positions `strict`.
fn check(types: &[IntrinsicType], strict: &[usize]) {
    let arity = types.len() - 1;
    let info = Intrinsic::new("F", function(types.to_vec()).unwrap(), strict.to_vec());
    assert!(info.is_well_formed());
    let made = enter(&wrap(17, &info, Smid::fake(0)));

    let mut args = Vec::new();
    let mut evaluated = Vec::new();
    for position in 0..arity {
        let passed = Slot::Param(position);
        if strict.contains(&position) {
            match tag_of(&types[position]) {
                Some(tag) => {
                    let field = Slot::Field(tag, Box::new(passed.clone()));
                    evaluated.push(passed);
                    evaluated.push(field.clone());
                    args.push(Slot::Evaluated(Box::new(field)));
                }
                None => {
                    evaluated.push(passed.clone());
                    args.push(Slot::Evaluated(Box::new(passed)));
                }
            }
        } else {
            args.push(passed);
        }
    }
    let boxed = if arity == 0 { None } else { tag_of(&types[arity]) };
    assert_eq!(made, NativeCall { evaluated, intrinsic: 17, args, boxed });
}

/// All choices of `n` types.
fn choices(n: usize) -> Vec<Vec<IntrinsicType>> {
    let mut all: Vec<Vec<IntrinsicType>> = vec![vec![]];
    for _ in 0..n {
        let mut longer = Vec::new();
        for chosen in &all {
            for kind in kinds() {
                let mut next = chosen.clone();
                next.push(kind);
                longer.push(next);
            }
        }
        all = longer;
    }
    all
}

#[test]
fn native_call_receives_what_the_descriptor_intends() {
    for arity in 0..=4usize {
        for types in choices(arity + 1) {
            for subset in 0..(1u32 << arity) {
                let strict: Vec<usize> =
                    (0..arity).filter(|position| subset & (1 << position) != 0).collect();
                check(&types, &strict);
            }
        }
    }
}

#[test]
fn many_strict_arguments_are_evaluated_in_turn() {
    let arity = 40usize;
    let mut types: Vec<IntrinsicType> = Vec::new();
    for position in 0..arity {
        types.push(kinds()[position % 5].clone());
    }
    types.push(num());
    let strict: Vec<usize> = (0..arity).filter(|position| position % 3 != 1).collect();
    check(&types, &strict);
    let all: Vec<usize> = (0..arity).collect();
    check(&types, &all);
}
