//! Descriptors of built-in operations and the table that holds them.

use vstd::prelude::*;
use crate::types::IntrinsicType;

verus! {

/// What a descriptor says, as a mathematical value.
pub struct Descriptor {
    /// The name under which the operation is registered.
    pub name: Seq<char>,
    /// The type of the operation: its arguments in turn, then its result.
    pub ty: IntrinsicType,
    /// The positions of the arguments that are evaluated before the native code runs.
    pub strict: Seq<usize>,
}

impl Descriptor {
    /// The number of arguments that the operation takes.
    pub open spec fn arity(self) -> nat {
        self.ty.spec_arity()
    }

    /// The strict positions are argument positions, listed once each from left to right.
    pub open spec fn wf(self) -> bool {
        &&& forall|j: int, k: int|
            0 <= j < k < self.strict.len() ==> self.strict[j] < self.strict[k]
        &&& forall|k: int| 0 <= k < self.strict.len() ==> self.strict[k] < self.arity()
    }

    /// Whether the argument at `position` is strict.
    pub open spec fn is_strict(self, position: int) -> bool {
        exists|k: int| 0 <= k < self.strict.len() && self.strict[k] == position
    }

    /// The declared type of the argument at `position`.
    pub open spec fn arg(self, position: int) -> Option<IntrinsicType> {
        if position < 0 {
            None
        } else {
            self.ty.spec_arg(position as nat)
        }
    }

    /// The declared type of the result: what is left of the type once every argument
    /// is supplied.
    pub open spec fn result(self) -> Option<IntrinsicType> {
        if self.arity() == 0 {
            Some(self.ty)
        } else {
            self.ty.spec_ret((self.arity() - 1) as nat)
        }
    }
}

/// Metadata of one built-in operation. It is made once and only read afterwards.
#[derive(Clone, Debug, PartialEq, Eq)]
pub struct Intrinsic {
    name: String,
    ty: IntrinsicType,
    strict: Vec<usize>,
}

impl View for Intrinsic {
    type V = Descriptor;

    closed spec fn view(&self) -> Descriptor {
        Descriptor { name: self.name@, ty: self.ty, strict: self.strict@ }
    }
}

impl Intrinsic {
    /// A descriptor of the operation `name` of type `ty` whose arguments at the positions
    /// `strict` are strict.
    pub fn new(name: &str, ty: IntrinsicType, strict: Vec<usize>) -> (info: Intrinsic)
        ensures
            info@ == (Descriptor { name: name@, ty, strict: strict@ }),
    {
        Intrinsic { name: name.to_owned(), ty, strict }
    }

    /// The name under which the operation is registered.
    pub fn name(&self) -> (name: &str)
        ensures
            name@ == self@.name,
    {
        self.name.as_str()
    }

    /// The type of the operation.
    pub fn ty(&self) -> (ty: &IntrinsicType)
        ensures
            *ty == self@.ty,
    {
        &self.ty
    }

    /// The number of arguments that the operation takes.
    pub fn arity(&self) -> (n: usize)
        requires
            self@.arity() <= usize::MAX,
        ensures
            n == self@.arity(),
    {
        self.ty.arity()
    }

    /// The positions of the strict arguments.
    pub fn strict_args(&self) -> (strict: &Vec<usize>)
        ensures
            strict@ == self@.strict,
    {
        &self.strict
    }

    /// Whether the strict positions are argument positions, listed once each from left
    /// to right.
    pub fn is_well_formed(&self) -> (ok: bool)
        ensures
            ok == self@.wf(),
    {
        let n: usize = self.strict.len();
        let mut k: usize = 0;
        while k < n
            invariant
                n == self.strict@.len(),
                k <= n,
                forall|i: int, j: int| 0 <= i < j < k ==> self.strict@[i] < self.strict@[j],
                forall|i: int| 0 <= i < k ==> self.strict@[i] < self@.arity(),
            decreases n - k,
        {
            let position: usize = self.strict[k];
            if self.ty.arg(position).is_none() {
                assert(!(self@.strict[k as int] < self@.arity()));
                return false;
            }
            if k > 0 && self.strict[k - 1] >= position {
                assert(!(self@.strict[k - 1] < self@.strict[k as int]));
                return false;
            }
            k += 1;
        }
        true
    }
}

/// Whether `entries` holds a descriptor named `name`.
pub open spec fn registered(entries: Seq<Descriptor>, name: Seq<char>) -> bool {
    exists|i: int| 0 <= i < entries.len() && entries[i].name == name
}

/// Whether `index` is the first place in `entries` that holds a descriptor named `name`.
pub open spec fn resolves_to(entries: Seq<Descriptor>, name: Seq<char>, index: int) -> bool {
    &&& 0 <= index < entries.len()
    &&& entries[index].name == name
    &&& forall|i: int| 0 <= i < index ==> entries[i].name != name
}

/// The index to which `name` resolves in `entries`, where it is registered there.
pub open spec fn index_of(entries: Seq<Descriptor>, name: Seq<char>) -> int {
    choose|index: int| resolves_to(entries, name, index)
}

/// A name that occurs at `at` resolves to an index that is no greater.
proof fn lemma_resolves_before(entries: Seq<Descriptor>, name: Seq<char>, at: int)
    requires
        0 <= at < entries.len(),
        entries[at].name == name,
    ensures
        0 <= index_of(entries, name) <= at,
        resolves_to(entries, name, index_of(entries, name)),
    decreases at,
{
    if exists|i: int| 0 <= i < at && entries[i].name == name {
        let earlier = choose|i: int| 0 <= i < at && entries[i].name == name;
        lemma_resolves_before(entries, name, earlier);
    } else {
        assert(resolves_to(entries, name, at));
    }
}

/// A registered name resolves to the first index that holds it, and to no other.
pub proof fn lemma_registered_resolves(entries: Seq<Descriptor>, name: Seq<char>)
    requires
        registered(entries, name),
    ensures
        resolves_to(entries, name, index_of(entries, name)),
{
    let at = choose|i: int| 0 <= i < entries.len() && entries[i].name == name;
    lemma_resolves_before(entries, name, at);
}

/// The table of built-in operations. The position of a descriptor is its global index.
#[derive(Clone, Debug, PartialEq, Eq)]
pub struct Registry {
    entries: Vec<Intrinsic>,
}

impl View for Registry {
    type V = Seq<Descriptor>;

    closed spec fn view(&self) -> Seq<Descriptor> {
        Seq::new(self.entries@.len(), |i: int| self.entries@[i]@)
    }
}

impl Registry {
    /// The table that holds `entries` in the order given.
    pub fn new(entries: Vec<Intrinsic>) -> (registry: Registry)
        ensures
            registry@ == Seq::new(entries@.len(), |i: int| entries@[i]@),
    {
        Registry { entries }
    }

    /// The number of descriptors in the table.
    pub fn len(&self) -> (n: usize)
        ensures
            n == self@.len(),
    {
        self.entries.len()
    }

    /// The index of the operation named `name`, if it is registered.
    pub fn index(&self, name: &str) -> (found: Option<usize>)
        ensures
            found is Some <==> registered(self@, name@),
            found matches Some(index) ==> resolves_to(self@, name@, index as int),
            found matches Some(index) ==> index == index_of(self@, name@),
    {
        let wanted = name.to_owned();
        let n: usize = self.entries.len();
        let mut i: usize = 0;
        while i < n
            invariant
                n == self@.len(),
                n == self.entries@.len(),
                i <= n,
                wanted@ == name@,
                forall|j: int| 0 <= j < i ==> self@[j].name != name@,
            decreases n - i,
        {
            if self.entries[i].name == wanted {
                proof {
                    lemma_resolves_before(self@, name@, i as int);
                }
                return Some(i);
            }
            i += 1;
        }
        None
    }

    /// The descriptor at `index`.
    pub fn intrinsic(&self, index: usize) -> (info: &Intrinsic)
        requires
            index < self@.len(),
        ensures
            info@ == self@[index as int],
    {
        &self.entries[index]
    }
}

} // verus!
