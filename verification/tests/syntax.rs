use std::rc::Rc;
use stg_intrinsic::sourcemap::Smid;
use stg_intrinsic::syntax::dsl::{
    annotated_lambda, app, app_bif, data, force, global, gref, let_, local, lref, unbox,
    unbox_num, unbox_str, unbox_sym, unbox_zdt, value,
};
use stg_intrinsic::syntax::{LambdaForm, Ref, StgSyn};
use stg_intrinsic::tags::DataConstructor;

#[test]
fn references_are_local_or_global() {
    assert_eq!(lref(3), Ref::L(3));
    assert_eq!(gref(3), Ref::G(3));
    assert_ne!(lref(3), gref(3));
    assert_eq!(*local(2), StgSyn::Atom { evaluand: Ref::L(2) });
    assert_eq!(*global(2), StgSyn::Atom { evaluand: Ref::G(2) });
}

#[test]
fn applications_keep_callee_and_arguments() {
    assert_eq!(
        *app(gref(1), vec![lref(0), lref(1)]),
        StgSyn::App { callable: Ref::G(1), args: vec![Ref::L(0), Ref::L(1)] }
    );
    assert_eq!(
        *app_bif(9, vec![lref(2)]),
        StgSyn::Bif { intrinsic: 9, args: vec![Ref::L(2)] }
    );
    assert_eq!(*data(4, vec![lref(0)]), StgSyn::Cons { tag: 4, args: vec![Ref::L(0)] });
}

#[test]
fn force_is_a_case_with_only_a_fallback() {
    assert_eq!(
        *force(local(3), local(0)),
        StgSyn::Case { scrutinee: local(3), branches: vec![], fallback: Some(local(0)) }
    );
}

#[test]
fn unbox_is_a_case_with_one_branch() {
    assert_eq!(
        *unbox(6, local(3), local(0)),
        StgSyn::Case { scrutinee: local(3), branches: vec![(6, local(0))], fallback: None }
    );
    assert_eq!(
        unbox_num(local(1), local(0)),
        unbox(DataConstructor::BoxedNumber.tag(), local(1), local(0))
    );
    assert_eq!(
        unbox_str(local(1), local(0)),
        unbox(DataConstructor::BoxedString.tag(), local(1), local(0))
    );
    assert_eq!(
        unbox_sym(local(1), local(0)),
        unbox(DataConstructor::BoxedSymbol.tag(), local(1), local(0))
    );
    assert_eq!(
        unbox_zdt(local(1), local(0)),
        unbox(DataConstructor::BoxedZdt.tag(), local(1), local(0))
    );
}

#[test]
fn let_keeps_bindings_in_order() {
    assert_eq!(
        *let_(vec![value(local(1)), value(local(2))], local(0)),
        StgSyn::Let {
            bindings: vec![
                LambdaForm::Value { body: local(1) },
                LambdaForm::Value { body: local(2) }
            ],
            body: local(0)
        }
    );
}

#[test]
fn lambda_keeps_arity_body_and_tag() {
    assert_eq!(
        annotated_lambda(2, local(1), Smid::fake(5)),
        LambdaForm::Lambda { bound: 2, body: Rc::new(StgSyn::Atom { evaluand: Ref::L(1) }), annotation: Smid(5) }
    );
    assert_ne!(Smid::fake(5), Smid::fake(6));
}

#[test]
fn box_tags_are_distinct() {
    let tags = [
        DataConstructor::BoxedNumber.tag(),
        DataConstructor::BoxedString.tag(),
        DataConstructor::BoxedSymbol.tag(),
        DataConstructor::BoxedZdt.tag(),
    ];
    for i in 0..tags.len() {
        for j in 0..tags.len() {
            assert_eq!(tags[i] == tags[j], i == j);
        }
    }
}
