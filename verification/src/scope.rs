//! The integer variables of a script scope.
//!
//! A script declares the resolution of its grid by assigning to the variables
//! `u_segments` and `v_segments` of the scope that it runs in. The scope is a
//! `rhai::Scope`; this module reads and seeds its integer variables.

use vstd::prelude::*;

verus! {

/// `rhai::Scope`: the variables that a script runs with and leaves behind.
/// The verifier sees nothing inside it.
#[verifier::external_type_specification]
#[verifier::external_body]
pub struct ExScope<'a>(rhai::Scope<'a>);

/// The integer variables of a scope: each name whose newest entry in the scope
/// holds a 64-bit integer, with that integer. Trusted: all that is known of it
/// is what the two functions below state.
pub uninterp spec fn scope_integers(scope: rhai::Scope<'_>) -> Map<Seq<char>, i64>;

/// The integer that `integers` binds to `name`, if any.
pub open spec fn lookup(integers: Map<Seq<char>, i64>, name: Seq<char>) -> Option<i64> {
    if integers.dom().contains(name) {
        Some(integers[name])
    } else {
        None
    }
}

/// Calls `rhai::Scope::get_value::<i64>`, which searches the entries from the
/// newest to the oldest for `name` and returns the value of the first one
/// found if that value is an integer. Trusted: the result is the integer that
/// [`scope_integers`] binds to `name`, and `None` where it binds none.
#[verifier::external_body]
pub(crate) fn scope_integer(scope: &rhai::Scope<'_>, name: &str) -> (value: Option<i64>)
    ensures
        value == lookup(scope_integers(*scope), name@),
{
    scope.get_value::<i64>(name)
}

/// Calls `rhai::Scope::push`, which appends an entry that shadows every older
/// entry of the same name. Trusted: afterwards `name` is bound to `value`, and
/// every other name is bound as before.
#[verifier::external_body]
pub(crate) fn scope_push_integer(scope: &mut rhai::Scope<'_>, name: &str, value: i64)
    ensures
        scope_integers(*final(scope)) == scope_integers(*old(scope)).insert(name@, value),
{
    scope.push(name, value);
}

} // verus!
