//! The metrics of the operator.

use crate::outside;
use crate::outside::registry_with_prefix;
use prometheus_client::registry::Registry;
use vstd::prelude::*;

verus! {

/// What the names of the metrics of the operator begin with, before an underscore.
pub const PREFIX: &'static str = "krabka_operator";

/// A registry for the metrics of the operator, in which nothing is registered.
pub fn new_registry() -> (r: Registry)
    ensures
        outside::registered_gauges(r) == Seq::<(Seq<char>, Seq<char>, int)>::empty(),
        outside::registry_prefix(r) == PREFIX@ + "_"@,
        outside::registry_labels(r) == Seq::<char>::empty(),
        outside::holds_only_gauges(r),
{
    registry_with_prefix(PREFIX)
}

} // verus!
