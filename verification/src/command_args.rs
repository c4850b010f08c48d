use vstd::prelude::*;

verus! {

/// The arguments of one command invocation, in the order the user gave them,
/// each kept once. This is indexmap's insertion-ordered set, which Verus
/// cannot look into; the trusted items below give it a meaning.
pub type CommandArgs = indexmap::IndexSet<String>;

#[verifier::external_type_specification]
#[verifier::external_body]
#[verifier::reject_recursive_types(T)]
#[verifier::reject_recursive_types(S)]
pub struct ExIndexSet<T, S>(indexmap::IndexSet<T, S>);

/// The elements an argument set holds, in insertion order.
pub uninterp spec fn args_elems(args: CommandArgs) -> Seq<Seq<char>>;

/// Relies on IndexSet::new: the set starts empty.
#[verifier::external_body]
pub fn args_new() -> (r: CommandArgs)
    ensures
        args_elems(r) == Seq::<Seq<char>>::empty(),
{
    indexmap::IndexSet::new()
}

/// Relies on IndexSet::insert: a value not yet present is appended at the
/// end, a present one leaves the set unchanged; the result says whether the
/// value was new.
#[verifier::external_body]
pub fn args_insert(args: &mut CommandArgs, v: String) -> (r: bool)
    ensures
        r == !args_elems(*old(args)).contains(v@),
        r ==> args_elems(*final(args)) == args_elems(*old(args)).push(v@),
        !r ==> args_elems(*final(args)) == args_elems(*old(args)),
{
    args.insert(v)
}

/// Relies on IndexSet::contains: whether some element equals the value.
#[verifier::external_body]
pub fn args_contain(args: &CommandArgs, v: &str) -> (r: bool)
    ensures
        r == args_elems(*args).contains(v@),
{
    args.contains(v)
}

/// Relies on IndexSet::len: how many elements the set holds.
#[verifier::external_body]
pub fn args_len(args: &CommandArgs) -> (r: usize)
    ensures
        r == args_elems(*args).len(),
{
    args.len()
}

/// Relies on IndexSet::get_index: the element at a position, in insertion
/// order.
#[verifier::external_body]
pub fn args_get(args: &CommandArgs, i: usize) -> (r: Option<&String>)
    ensures
        r is Some <==> i < args_elems(*args).len(),
        i < args_elems(*args).len() ==> r->Some_0@ == args_elems(*args)[i as int],
{
    args.get_index(i)
}

} // verus!
