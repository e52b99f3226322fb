//! Calls into other crates, and what the library believes of them.

use crate::text;
use k8s_openapi::apimachinery::pkg::apis::meta::v1::ObjectMeta;
use prometheus_client::metrics::gauge::Gauge;
use prometheus_client::registry::Registry;
use vstd::prelude::*;

verus! {

/// What `refined_type` says of an integer that is not greater than zero.
pub open spec fn not_positive(n: int) -> Seq<char> {
    "the value must be greater than 0, but received "@ + text::signed_decimal(n)
}

/// What `refined_type` says of an integer that is less than zero.
pub open spec fn negative(n: int) -> Seq<char> {
    "[the value must be equal to 0, but received "@ + text::signed_decimal(n) + " || "@
        + not_positive(n) + "]"@
}

/// Whether `r` is the verdict of the rule "greater than zero" on `n`.
pub open spec fn judges_positive(r: Result<(), String>, n: int) -> bool {
    match r {
        Ok(_) => n > 0,
        Err(message) => n <= 0 && message@ == not_positive(n),
    }
}

/// Whether `r` is the verdict of the rule "zero or greater" on `n`.
pub open spec fn judges_nonnegative(r: Result<(), String>, n: int) -> bool {
    match r {
        Ok(_) => n >= 0,
        Err(message) => n < 0 && message@ == negative(n),
    }
}

/// `refined_type::rule::GreaterUsize::<0>::new` accepts a value above zero, and
/// its error shows the rule and the value.
#[verifier::external_body]
pub(crate) fn positive_usize(n: usize) -> (r: Result<(), String>)
    ensures
        judges_positive(r, n as int),
{
    refined_type::rule::GreaterUsize::<0>::new(n).map(|_| ()).map_err(|e| e.to_string())
}

/// `refined_type::rule::GreaterU32::<0>::new` accepts a value above zero, and its
/// error shows the rule and the value.
#[verifier::external_body]
pub(crate) fn positive_u32(n: u32) -> (r: Result<(), String>)
    ensures
        judges_positive(r, n as int),
{
    refined_type::rule::GreaterU32::<0>::new(n).map(|_| ()).map_err(|e| e.to_string())
}

/// `refined_type::rule::GreaterU64::<0>::new` accepts a value above zero, and its
/// error shows the rule and the value.
#[verifier::external_body]
pub(crate) fn positive_u64(n: u64) -> (r: Result<(), String>)
    ensures
        judges_positive(r, n as int),
{
    refined_type::rule::GreaterU64::<0>::new(n).map(|_| ()).map_err(|e| e.to_string())
}

/// `refined_type::rule::GreaterI16::<0>::new` accepts a value above zero, and its
/// error shows the rule and the value.
#[verifier::external_body]
pub(crate) fn positive_i16(n: i16) -> (r: Result<(), String>)
    ensures
        judges_positive(r, n as int),
{
    refined_type::rule::GreaterI16::<0>::new(n).map(|_| ()).map_err(|e| e.to_string())
}

/// `refined_type::rule::GreaterI32::<0>::new` accepts a value above zero, and its
/// error shows the rule and the value.
#[verifier::external_body]
pub(crate) fn positive_i32(n: i32) -> (r: Result<(), String>)
    ensures
        judges_positive(r, n as int),
{
    refined_type::rule::GreaterI32::<0>::new(n).map(|_| ()).map_err(|e| e.to_string())
}

/// `refined_type::rule::GreaterI64::<0>::new` accepts a value above zero, and its
/// error shows the rule and the value.
#[verifier::external_body]
pub(crate) fn positive_i64(n: i64) -> (r: Result<(), String>)
    ensures
        judges_positive(r, n as int),
{
    refined_type::rule::GreaterI64::<0>::new(n).map(|_| ()).map_err(|e| e.to_string())
}

/// `refined_type::rule::GreaterEqualI32::<0>::new` accepts zero and above, and its
/// error shows both halves of the rule and the value.
#[verifier::external_body]
pub(crate) fn nonnegative_i32(n: i32) -> (r: Result<(), String>)
    ensures
        judges_nonnegative(r, n as int),
{
    refined_type::rule::GreaterEqualI32::<0>::new(n).map(|_| ()).map_err(|e| e.to_string())
}

/// `refined_type::rule::GreaterEqualI64::<0>::new` accepts zero and above, and its
/// error shows both halves of the rule and the value.
#[verifier::external_body]
pub(crate) fn nonnegative_i64(n: i64) -> (r: Result<(), String>)
    ensures
        judges_nonnegative(r, n as int),
{
    refined_type::rule::GreaterEqualI64::<0>::new(n).map(|_| ()).map_err(|e| e.to_string())
}

/// Whether `message` is what `refined_type` says of an empty string, where a type name
/// stands between the brackets.
pub open spec fn refuses_empty(message: Seq<char>) -> bool {
    text::begins_with(message, "\"\" does not satisfy Not<"@) && text::ends_with(message, ">"@)
}

/// `refined_type::rule::NonEmptyString::new` accepts a string with at least one
/// character. Its error shows the empty string and the rule. The name of the rule is
/// left open, because the compiler prints it.
#[verifier::external_body]
pub(crate) fn non_empty_string(s: String) -> (r: Result<(), String>)
    ensures
        r is Ok <==> s@.len() > 0,
        r matches Err(message) ==> refuses_empty(message@),
{
    refined_type::rule::NonEmptyString::new(s).map(|_| ()).map_err(|e| e.to_string())
}

/// A string as a TOML value.
pub uninterp spec fn toml_string(s: Seq<char>) -> Seq<char>;

/// The `Display` form of `toml::Value::String`, a function of the string alone.
#[verifier::external_body]
pub(crate) fn render_toml_string(s: &str) -> (r: String)
    ensures
        r@ == toml_string(s@),
{
    toml::Value::String(s.to_owned()).to_string()
}

/// The metadata of a Kubernetes object. The library carries it through and reads
/// nothing in it.
#[verifier::external_type_specification]
#[verifier::external_body]
pub struct ExObjectMeta(k8s_openapi::apimachinery::pkg::apis::meta::v1::ObjectMeta);

/// `ObjectMeta::clone` copies every field.
pub assume_specification[ <ObjectMeta as Clone>::clone ](meta: &ObjectMeta) -> (r: ObjectMeta)
    ensures
        r == *meta,
;

/// Whether a whole number of seconds from the Unix epoch and a rest in
/// nanoseconds, both towards or both away from it, are an instant in the years
/// -9999 to 9999, less the offset of a time zone at either end.
pub open spec fn instant(second: int, nanosecond: int) -> bool {
    &&& -377_705_023_201 <= second <= 253_402_207_200
    &&& -999_999_999 <= nanosecond <= 999_999_999
    &&& second > 0 ==> nanosecond >= 0
    &&& second < 0 ==> nanosecond <= 0
    &&& second == -377_705_023_201 ==> nanosecond == 0
}

/// `jiff::Timestamp::now` reads the system clock, in seconds and nanoseconds, so
/// no more is claimed of the result than that it is an instant. The call panics
/// where the clock is outside that range.
#[verifier::external_body]
pub(crate) fn clock() -> (r: (i64, i32))
    ensures
        instant(r.0 as int, r.1 as int),
{
    let now = k8s_openapi::jiff::Timestamp::now();
    (now.as_second(), now.subsec_nanosecond())
}

/// A registry of metrics.
#[verifier::external_type_specification]
#[verifier::external_body]
pub struct ExRegistry(prometheus_client::registry::Registry);

/// A gauge. Its clones share its value.
#[verifier::external_type_specification]
#[verifier::external_body]
#[verifier::reject_recursive_types(N)]
#[verifier::reject_recursive_types(A)]
pub struct ExGauge<N, A>(prometheus_client::metrics::gauge::Gauge<N, A>);

/// The gauges that were registered with a registry itself, each by its name, its
/// help text and its cell, in the order of their registration.
pub uninterp spec fn registered_gauges(registry: Registry) -> Seq<(Seq<char>, Seq<char>, int)>;

/// What the names of the metrics of a registry begin with: its prefix and an
/// underscore, or nothing.
pub uninterp spec fn registry_prefix(registry: Registry) -> Seq<char>;

/// What follows the name of a metric in a sample: the labels of the registry in
/// braces, or nothing.
pub uninterp spec fn registry_labels(registry: Registry) -> Seq<char>;

/// Whether a registry has no labels, and holds nothing but gauges with integer values:
/// no other metric, no collector and no registry.
pub uninterp spec fn holds_only_gauges(registry: Registry) -> bool;

/// `Registry::with_prefix` makes a registry with a prefix, without labels, in which
/// nothing is registered.
#[verifier::external_body]
pub(crate) fn registry_with_prefix(prefix: &str) -> (r: Registry)
    ensures
        registered_gauges(r) == Seq::<(Seq<char>, Seq<char>, int)>::empty(),
        registry_prefix(r) == prefix@ + "_"@,
        registry_labels(r) == Seq::<char>::empty(),
        holds_only_gauges(r),
{
    Registry::with_prefix(prefix)
}

/// The cell that a gauge shares with its clones.
pub uninterp spec fn gauge_cell(gauge: Gauge) -> int;

/// The value that was last set through this handle of a gauge. The one other handle
/// that the library makes is the clone in a registry, through which nothing is set,
/// so this is the value in the cell.
pub uninterp spec fn gauge_value(gauge: Gauge) -> int;

/// `Gauge::default` makes a gauge with the value 0.
#[verifier::external_body]
pub(crate) fn new_gauge() -> (r: Gauge)
    ensures
        gauge_value(r) == 0,
{
    Gauge::default()
}

/// `Gauge::set` sets the value of a gauge, which stays in its cell.
#[verifier::external_body]
pub(crate) fn set_gauge(gauge: &mut Gauge, value: i64)
    ensures
        gauge_value(*final(gauge)) == value,
        gauge_cell(*final(gauge)) == gauge_cell(*old(gauge)),
{
    gauge.set(value);
}

/// `Registry::register` adds a clone of the gauge after what is registered. The
/// prefix and the labels of the registry stay.
#[verifier::external_body]
pub(crate) fn register_gauge(registry: &mut Registry, name: &str, help: &str, gauge: &Gauge)
    ensures
        registered_gauges(*final(registry)) == registered_gauges(*old(registry)).push(
            (name@, help@, gauge_cell(*gauge)),
        ),
        registry_prefix(*final(registry)) == registry_prefix(*old(registry)),
        registry_labels(*final(registry)) == registry_labels(*old(registry)),
        holds_only_gauges(*final(registry)) == holds_only_gauges(*old(registry)),
{
    registry.register(name, help, gauge.clone());
}

/// Whether `text` holds the help line of a gauge. The line ends with a full stop.
pub open spec fn describes(
    text: Seq<char>,
    registry: Registry,
    name: Seq<char>,
    help: Seq<char>,
) -> bool {
    text::holds(text, "# HELP "@ + registry_prefix(registry) + name + " "@ + help + ".\n"@)
}

/// Whether `text` holds, as a line of its own, the sample of a gauge with the value
/// `value`.
pub open spec fn samples(text: Seq<char>, registry: Registry, name: Seq<char>, value: int) -> bool {
    text::holds(
        text,
        "\n"@ + registry_prefix(registry) + name + registry_labels(registry) + " "@
            + text::signed_decimal(value) + "\n"@,
    )
}

/// `prometheus_client::encoding::text::encode` writes the registered metrics and an
/// end marker. Each gauge has a help line, and a sample with the value in its cell:
/// for the cell of `gauge`, the value that was last set through `gauge`. The samples
/// of other metrics are the values of that moment, so the text is not a function of
/// the registry. Writing a gauge into a string does not fail, so a registry of gauges
/// encodes. Otherwise the error is left open: a metric of another crate may fail to
/// encode itself.
#[verifier::external_body]
pub(crate) fn encode(registry: &Registry, gauge: &Gauge) -> (r: Result<String, String>)
    ensures
        holds_only_gauges(*registry) ==> r is Ok,
        r matches Ok(text) ==> text::ends_with(text@, "# EOF\n"@),
        r matches Ok(text) ==> forall|i: int|
            0 <= i < registered_gauges(*registry).len() ==> {
                let (name, help, cell) = #[trigger] registered_gauges(*registry)[i];
                &&& describes(text@, *registry, name, help)
                &&& cell == gauge_cell(*gauge) ==> samples(
                    text@,
                    *registry,
                    name,
                    gauge_value(*gauge),
                )
            },
{
    let mut buffer = String::new();
    let encoded = prometheus_client::encoding::text::encode(&mut buffer, registry);
    encoded.map(|_| buffer).map_err(|e| e.to_string())
}

} // verus!
