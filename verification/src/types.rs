//! Semantic types of built-in operations.

use vstd::prelude::*;
use crate::tags::DataConstructor;

verus! {

/// The kind of value that an argument or a result of a built-in operation is.
#[derive(Debug, PartialEq, Eq)]
pub enum IntrinsicType {
    /// A value that is passed and returned as it is, never boxed.
    Opaque,
    /// A number, boxed in the graph.
    Number,
    /// A string, boxed in the graph.
    String,
    /// A symbol, boxed in the graph.
    Symbol,
    /// A point in time with its zone, boxed in the graph.
    ZonedDateTime,
    /// A function from the first type to the second.
    Function(Box<IntrinsicType>, Box<IntrinsicType>),
}

impl Clone for IntrinsicType {
    fn clone(&self) -> (copy: IntrinsicType)
        ensures
            copy == *self,
        decreases self,
    {
        match self {
            IntrinsicType::Opaque => IntrinsicType::Opaque,
            IntrinsicType::Number => IntrinsicType::Number,
            IntrinsicType::String => IntrinsicType::String,
            IntrinsicType::Symbol => IntrinsicType::Symbol,
            IntrinsicType::ZonedDateTime => IntrinsicType::ZonedDateTime,
            IntrinsicType::Function(input, out) => IntrinsicType::Function(
                Box::new((**input).clone()),
                Box::new((**out).clone()),
            ),
        }
    }
}

impl IntrinsicType {
    /// The constructor that boxes native values of this type, if they are boxed at all.
    pub open spec fn spec_constructor(self) -> Option<DataConstructor> {
        match self {
            IntrinsicType::Number => Some(DataConstructor::BoxedNumber),
            IntrinsicType::String => Some(DataConstructor::BoxedString),
            IntrinsicType::Symbol => Some(DataConstructor::BoxedSymbol),
            IntrinsicType::ZonedDateTime => Some(DataConstructor::BoxedZdt),
            _ => None,
        }
    }

    /// The number of arguments that a value of this type takes.
    pub open spec fn spec_arity(self) -> nat
        decreases self,
    {
        match self {
            IntrinsicType::Function(_, out) => 1 + out.spec_arity(),
            _ => 0,
        }
    }

    /// The type of the argument at position `n`, counted from zero.
    pub open spec fn spec_arg(self, n: nat) -> Option<IntrinsicType>
        decreases self,
    {
        match self {
            IntrinsicType::Function(input, out) => if n == 0 {
                Some(*input)
            } else {
                out.spec_arg((n - 1) as nat)
            },
            _ => None,
        }
    }

    /// The type that is left once the arguments at positions `0..=n` are supplied.
    pub open spec fn spec_ret(self, n: nat) -> Option<IntrinsicType>
        decreases self,
    {
        match self {
            IntrinsicType::Function(_, out) => if n == 0 {
                Some(*out)
            } else {
                out.spec_ret((n - 1) as nat)
            },
            _ => None,
        }
    }

    /// Exactly the positions below the arity have an argument type.
    pub proof fn lemma_arg_in_range(self, n: nat)
        ensures
            self.spec_arg(n) is Some <==> n < self.spec_arity(),
            self.spec_ret(n) is Some <==> n < self.spec_arity(),
        decreases self,
    {
        match self {
            IntrinsicType::Function(_, out) => {
                if n > 0 {
                    out.lemma_arg_in_range((n - 1) as nat);
                }
            },
            _ => {},
        }
    }

    /// The constructor that boxes native values of this type, if they are boxed at all.
    pub fn constructor(&self) -> (c: Option<DataConstructor>)
        ensures
            c == self.spec_constructor(),
    {
        match self {
            IntrinsicType::Number => Some(DataConstructor::BoxedNumber),
            IntrinsicType::String => Some(DataConstructor::BoxedString),
            IntrinsicType::Symbol => Some(DataConstructor::BoxedSymbol),
            IntrinsicType::ZonedDateTime => Some(DataConstructor::BoxedZdt),
            _ => None,
        }
    }

    /// The number of arguments that a value of this type takes.
    pub fn arity(&self) -> (n: usize)
        requires
            self.spec_arity() <= usize::MAX,
        ensures
            n == self.spec_arity(),
        decreases self,
    {
        match self {
            IntrinsicType::Function(_, out) => 1 + out.arity(),
            _ => 0,
        }
    }

    /// Whether this type takes at most `limit` arguments.
    pub fn arity_within(&self, limit: usize) -> (within: bool)
        ensures
            within == (self.spec_arity() <= limit),
        decreases self,
    {
        match self {
            IntrinsicType::Function(_, out) => limit > 0 && out.arity_within(limit - 1),
            _ => true,
        }
    }

    /// The type of the argument at position `n`, counted from zero.
    pub fn arg(&self, n: usize) -> (t: Option<&IntrinsicType>)
        ensures
            t is Some <==> n < self.spec_arity(),
            t is Some <==> self.spec_arg(n as nat) is Some,
            t matches Some(ty) ==> *ty == self.spec_arg(n as nat).unwrap(),
        decreases self,
    {
        proof {
            self.lemma_arg_in_range(n as nat);
        }
        match self {
            IntrinsicType::Function(input, out) => if n == 0 {
                Some(&**input)
            } else {
                out.arg(n - 1)
            },
            _ => None,
        }
    }

    /// The type that is left once the arguments at positions `0..=n` are supplied.
    pub fn ret(&self, n: usize) -> (t: Option<&IntrinsicType>)
        ensures
            t is Some <==> n < self.spec_arity(),
            t is Some <==> self.spec_ret(n as nat) is Some,
            t matches Some(ty) ==> *ty == self.spec_ret(n as nat).unwrap(),
        decreases self,
    {
        proof {
            self.lemma_arg_in_range(n as nat);
        }
        match self {
            IntrinsicType::Function(_, out) => if n == 0 {
                Some(&**out)
            } else {
                out.ret(n - 1)
            },
            _ => None,
        }
    }
}

/// The function type that takes the first of `types`, then the second, and so on, and
/// ends in the last of them.
pub open spec fn arrows(types: Seq<IntrinsicType>) -> IntrinsicType
    recommends
        types.len() > 0,
    decreases types.len(),
{
    if types.len() <= 1 {
        types[0]
    } else {
        IntrinsicType::Function(Box::new(types[0]), Box::new(arrows(types.skip(1))))
    }
}

/// Whether `ty` takes as its arguments, in turn, all of `types` but the last and then
/// gives a value of the last, provided that the last is no function type itself.
pub open spec fn shaped_by(ty: IntrinsicType, types: Seq<IntrinsicType>) -> bool {
    types.len() > 0 && !(types.last() is Function) ==> {
        &&& ty.spec_arity() == types.len() - 1
        &&& forall|n: nat| n + 1 < types.len() ==> ty.spec_arg(n) == Some(types[n as int])
        &&& types.len() > 1 ==> ty.spec_ret((types.len() - 2) as nat) == Some(types.last())
    }
}

/// Folding the last two of the types into one function type leaves the whole unchanged.
proof fn lemma_arrows_fold_last(types: Seq<IntrinsicType>, input: IntrinsicType, out: IntrinsicType)
    ensures
        arrows(types.push(input).push(out)) == arrows(
            types.push(IntrinsicType::Function(Box::new(input), Box::new(out))),
        ),
    decreases types.len(),
{
    let long = types.push(input).push(out);
    let short = types.push(IntrinsicType::Function(Box::new(input), Box::new(out)));
    if types.len() == 0 {
        assert(long.skip(1) =~= seq![out]);
        assert(arrows(long.skip(1)) == out);
    } else {
        assert(long.skip(1) =~= types.skip(1).push(input).push(out));
        assert(short.skip(1) =~= types.skip(1).push(
            IntrinsicType::Function(Box::new(input), Box::new(out)),
        ));
        lemma_arrows_fold_last(types.skip(1), input, out);
    }
}

/// The arity, the argument types and the result type of a chain of types that ends in a
/// type other than a function.
pub proof fn lemma_arrows_shape(types: Seq<IntrinsicType>)
    ensures
        shaped_by(arrows(types), types),
    decreases types.len(),
{
    if types.len() > 1 && !(types.last() is Function) {
        let rest = types.skip(1);
        assert(rest.last() == types.last());
        lemma_arrows_shape(rest);
        assert(arrows(types) == IntrinsicType::Function(
            Box::new(types[0]),
            Box::new(arrows(rest)),
        ));
        assert forall|n: nat| n + 1 < types.len() implies arrows(types).spec_arg(n) == Some(
            types[n as int],
        ) by {
            if n > 0 {
                let m = (n - 1) as nat;
                assert(arrows(rest).spec_arg(m) == Some(rest[m as int]));
                assert(rest[m as int] == types[n as int]);
            }
        }
        if types.len() == 2 {
            assert(arrows(rest) == types.last());
        }
    }
}

/// The type of functions from `input` to `out`.
pub fn arrow(input: IntrinsicType, out: IntrinsicType) -> (t: IntrinsicType)
    ensures
        t == IntrinsicType::Function(Box::new(input), Box::new(out)),
{
    IntrinsicType::Function(Box::new(input), Box::new(out))
}

/// The function type that takes the first of `types`, then the second, and so on, and
/// ends in the last of them; none where `types` is empty.
pub fn function(types: Vec<IntrinsicType>) -> (t: Option<IntrinsicType>)
    ensures
        t is Some <==> types@.len() > 0,
        t matches Some(ty) ==> ty == arrows(types@),
        t matches Some(ty) ==> shaped_by(ty, types@),
{
    let mut types = types;
    let ghost all = types@;
    proof {
        lemma_arrows_shape(all);
    }
    match types.pop() {
        None => None,
        Some(last) => {
            let mut ret = last;
            assert(types@.push(ret) =~= all);
            while types.len() > 0
                invariant
                    arrows(types@.push(ret)) == arrows(all),
                decreases types.len(),
            {
                let ghost before = types@;
                let input = types.pop().unwrap();
                proof {
                    assert(before =~= types@.push(input));
                    lemma_arrows_fold_last(types@, input, ret);
                }
                ret = arrow(input, ret);
            }
            assert(types@.push(ret) =~= seq![ret]);
            Some(ret)
        },
    }
}

/// The type of numbers.
pub fn num() -> (t: IntrinsicType)
    ensures
        t == IntrinsicType::Number,
{
    IntrinsicType::Number
}

/// The type of strings.
pub fn str() -> (t: IntrinsicType)
    ensures
        t == IntrinsicType::String,
{
    IntrinsicType::String
}

/// The type of symbols.
pub fn sym() -> (t: IntrinsicType)
    ensures
        t == IntrinsicType::Symbol,
{
    IntrinsicType::Symbol
}

/// The type of timestamps.
pub fn zdt() -> (t: IntrinsicType)
    ensures
        t == IntrinsicType::ZonedDateTime,
{
    IntrinsicType::ZonedDateTime
}

/// The type of values that are never boxed.
pub fn opaque() -> (t: IntrinsicType)
    ensures
        t == IntrinsicType::Opaque,
{
    IntrinsicType::Opaque
}

} // verus!
