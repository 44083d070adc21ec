use stg_intrinsic::error::ExecutionError;
use stg_intrinsic::intrinsic::{
    wrap, CallGlobal0, CallGlobal1, CallGlobal2, CallGlobal3, CallGlobal7, Const, StgIntrinsic,
};
use stg_intrinsic::intrinsics::{Intrinsic, Registry};
use stg_intrinsic::sourcemap::Smid;
use stg_intrinsic::syntax::dsl::{app, global, gref, lref};
use stg_intrinsic::syntax::Ref;
use stg_intrinsic::types;

/// An operation known by its name alone, without native code: it exists only as its
/// adapter.
struct Named(&'static str);

impl StgIntrinsic for Named {
    type Machine = Vec<i64>;

    fn spec_name(&self) -> vstd::seq::Seq<char> {
        unreachable!()
    }

    fn name(&self) -> &str {
        self.0
    }

    fn spec_native(&self) -> bool {
        unreachable!()
    }

    fn native(&self) -> bool {
        false
    }
}

impl Const for Named {}

impl CallGlobal0 for Named {}

impl CallGlobal1 for Named {}

impl CallGlobal2 for Named {}

impl CallGlobal3 for Named {}

impl CallGlobal7 for Named {}

/// Integer division on a stack of numbers, with native code of its own.
struct Div;

impl StgIntrinsic for Div {
    type Machine = Vec<i64>;

    fn spec_name(&self) -> vstd::seq::Seq<char> {
        unreachable!()
    }

    fn name(&self) -> &str {
        "DIV"
    }

    fn spec_native(&self) -> bool {
        unreachable!()
    }

    fn native(&self) -> bool {
        true
    }

    fn inlinable(&self) -> bool {
        false
    }

    fn execute(&self, machine: &mut Vec<i64>, args: &[Ref]) -> Result<(), ExecutionError> {
        let divisor = machine.pop().unwrap();
        let dividend = machine.pop().unwrap();
        if divisor == 0 {
            return Err(ExecutionError::Native("division by zero".to_string()));
        }
        machine.push(dividend / divisor + args.len() as i64);
        Ok(())
    }
}

/// An operation that declares native code and brings none.
struct Hollow;

impl StgIntrinsic for Hollow {
    type Machine = Vec<i64>;

    fn spec_name(&self) -> vstd::seq::Seq<char> {
        unreachable!()
    }

    fn name(&self) -> &str {
        "HOLLOW"
    }

    fn spec_native(&self) -> bool {
        unreachable!()
    }

    fn native(&self) -> bool {
        true
    }
}

fn registry() -> Registry {
    Registry::new(vec![
        Intrinsic::new("PI", types::num(), vec![]),
        Intrinsic::new(
            "ADD",
            types::function(vec![types::num(), types::num(), types::num()]).unwrap(),
            vec![0, 1],
        ),
        Intrinsic::new(
            "DIV",
            types::function(vec![types::num(), types::num(), types::num()]).unwrap(),
            vec![0, 1],
        ),
        Intrinsic::new("ADD", types::function(vec![types::str(), types::str()]).unwrap(), vec![]),
    ])
}

#[test]
fn index_is_the_first_place_of_the_name() {
    let registry = registry();
    assert_eq!(Named("PI").index(&registry), 0);
    assert_eq!(Named("ADD").index(&registry), 1);
    assert_eq!(Div.index(&registry), 2);
}

#[test]
fn info_is_the_descriptor_at_the_index() {
    let registry = registry();
    let info = Named("ADD").info(&registry);
    assert_eq!(info.name(), "ADD");
    assert_eq!(info.arity(), 2);
    assert_eq!(info.strict_args(), &vec![0, 1]);
    assert_eq!(info, registry.intrinsic(1));
}

#[test]
fn gref_addresses_the_global() {
    let registry = registry();
    assert_eq!(Named("ADD").gref(&registry), Ref::G(1));
    assert_eq!(Div.gref(&registry), gref(2));
}

#[test]
fn wrapper_is_the_adapter_of_the_registered_descriptor() {
    let registry = registry();
    assert_eq!(
        Named("ADD").wrapper(&registry, Smid::fake(4)),
        wrap(1, registry.intrinsic(1), Smid::fake(4))
    );
    assert_eq!(
        Named("PI").wrapper(&registry, Smid::fake(4)),
        wrap(0, registry.intrinsic(0), Smid::fake(4))
    );
}

#[test]
fn constant_is_a_bare_global() {
    let registry = registry();
    assert_eq!(Const::global(&Named("PI"), &registry), global(0));
}

#[test]
fn calls_apply_the_global_to_their_arguments() {
    let registry = registry();
    let f = Named("ADD");
    assert_eq!(CallGlobal0::global(&f, &registry), app(gref(1), vec![]));
    assert_eq!(CallGlobal1::global(&f, &registry, lref(4)), app(gref(1), vec![lref(4)]));
    assert_eq!(
        CallGlobal2::global(&f, &registry, lref(4), gref(2)),
        app(gref(1), vec![lref(4), gref(2)])
    );
    assert_eq!(
        CallGlobal3::global(&f, &registry, lref(0), lref(1), lref(2)),
        app(gref(1), vec![lref(0), lref(1), lref(2)])
    );
    assert_eq!(
        CallGlobal7::global(
            &f,
            &registry,
            lref(6),
            lref(5),
            lref(4),
            lref(3),
            lref(2),
            lref(1),
            lref(0)
        ),
        app(
            gref(1),
            vec![lref(6), lref(5), lref(4), lref(3), lref(2), lref(1), lref(0)]
        )
    );
}

#[test]
fn inlinable_unless_the_operation_says_otherwise() {
    assert!(Named("ADD").inlinable());
    assert!(!Div.inlinable());
}

#[test]
fn native_code_is_declared() {
    assert!(!Named("ADD").native());
    assert!(!Named("PI").native());
    assert!(Div.native());
}

#[test]
fn declared_native_code_that_is_missing_is_reported() {
    let mut machine: Vec<i64> = vec![7, 2];
    assert!(Hollow.native());
    assert_eq!(
        Hollow.execute(&mut machine, &[lref(0), lref(1)]),
        Err(ExecutionError::StgOnly("HOLLOW".to_string()))
    );
    assert_eq!(machine, vec![7, 2]);
    assert_eq!(ExecutionError::StgOnly("ADD".to_string()).message(), "ADD is STG-only");
}

#[test]
fn execute_with_native_code_returns_or_fails() {
    let mut machine: Vec<i64> = vec![7, 2];
    assert!(Div.native());
    assert_eq!(Div.execute(&mut machine, &[]), Ok(()));
    assert_eq!(machine, vec![3]);

    let mut machine: Vec<i64> = vec![7, 0];
    let failed = Div.execute(&mut machine, &[]);
    assert_eq!(failed, Err(ExecutionError::Native("division by zero".to_string())));
    assert_eq!(failed.unwrap_err().message(), "division by zero");
}
