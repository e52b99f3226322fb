//! `spec.tracing`: distributed tracing of a fleet.

use crate::binary64;
use crate::binary64::{Binary64, INFINITE, SCALE};
use crate::crd::report;
use crate::text;
use crate::text::is_blank;
use crate::units::{Ratio, Setting, Time};
use vstd::arithmetic::power2::*;
use vstd::prelude::*;
use vstd::string::*;

verus! {

/// Fleet-wide distributed-tracing configuration. The matching `otlp` block is
/// required when `kind` is `Otlp`.
#[derive(Debug, Clone, PartialEq)]
pub struct Tracing {
    /// Tracing backend selector.
    pub kind: TracingType,
    /// OTLP-backend tuning.
    pub otlp: Option<OtlpTracing>,
}

impl Default for Tracing {
    fn default() -> (r: Self)
        ensures
            r.kind == TracingType::Otlp,
            r.otlp is None,
    {
        Tracing { kind: TracingType::Otlp, otlp: None }
    }
}

/// The tracing backends.
#[derive(Debug, Clone, Copy, PartialEq, Eq, Structural)]
pub enum TracingType {
    /// OpenTelemetry OTLP exporter.
    Otlp,
}

impl Default for TracingType {
    fn default() -> (r: Self)
        ensures
            r == TracingType::Otlp,
    {
        TracingType::Otlp
    }
}

/// OTLP-specific tracing parameters.
#[derive(Debug, Clone, PartialEq)]
pub struct OtlpTracing {
    /// Required. OTLP collector endpoint in the form `scheme://host:port`.
    pub endpoint: String,
    /// Optional protocol.
    pub protocol: Option<OtlpProtocol>,
    /// Optional sampling ratio from 0 to 1.
    pub sample_ratio: Option<Setting<Ratio>>,
    /// Optional `service.name` resource attribute.
    pub service_name: Option<String>,
    /// Optional export timeout.
    pub timeout: Option<Time>,
}

/// OTLP wire protocol selector.
#[derive(Debug, Clone, Copy, PartialEq, Eq, Structural)]
pub enum OtlpProtocol {
    /// gRPC over HTTP/2.
    Grpc,
    /// HTTP/1 with a protobuf payload.
    HttpProtobuf,
}

impl OtlpProtocol {
    /// The value of the environment variable for the protocol.
    #[must_use]
    pub fn as_env_value(self) -> (r: &'static str)
        ensures
            r@ == match self {
                OtlpProtocol::Grpc => "grpc"@,
                OtlpProtocol::HttpProtobuf => "http/protobuf"@,
            },
    {
        match self {
            OtlpProtocol::Grpc => "grpc",
            OtlpProtocol::HttpProtobuf => "http/protobuf",
        }
    }
}

/// Whether a sampling ratio is from 0 to 1.
pub open spec fn samples(ratio: Ratio) -> bool {
    Binary64::integer(0).at_most(ratio.fraction) && ratio.fraction.at_most(Binary64::integer(1))
}

impl OtlpTracing {
    /// What is wrong with the parameters.
    pub open spec fn error(self) -> Option<Seq<char>> {
        if text::blank(self.endpoint@) {
            Some("otlp.endpoint is required and must be non-empty"@)
        } else if self.sample_ratio matches Some(ratio) && !samples(ratio.value) {
            Some(
                "otlp.sampleRatio must be in [0.0, 1.0] (got "@ + self.sample_ratio->0.text@ + ")"@,
            )
        } else if self.service_name matches Some(name) && text::blank(name@) {
            Some("otlp.serviceName, when set, must be non-empty"@)
        } else if self.timeout matches Some(timeout) && !timeout.representable() {
            Some("otlp.timeout, when set, must be positive and representable"@)
        } else {
            None
        }
    }

    fn validate(&self) -> (r: Result<(), String>)
        ensures
            report::reports(r, self.error()),
    {
        if is_blank(self.endpoint.as_str()) {
            return Err(String::from_str("otlp.endpoint is required and must be non-empty"));
        }
        if let Some(ratio) = &self.sample_ratio {
            if !(Binary64::from_u64(0).is_at_most(ratio.value.fraction)
                && ratio.value.fraction.is_at_most(Binary64::from_u64(1))) {
                let mut message = String::from_str("otlp.sampleRatio must be in [0.0, 1.0] (got ");
                message.append(ratio.text.as_str());
                message.append(")");
                return Err(message);
            }
        }
        if let Some(name) = &self.service_name {
            if is_blank(name.as_str()) {
                return Err(String::from_str("otlp.serviceName, when set, must be non-empty"));
            }
        }
        if let Some(timeout) = self.timeout {
            if !timeout.is_representable() {
                return Err(
                    String::from_str("otlp.timeout, when set, must be positive and representable"),
                );
            }
        }
        Ok(())
    }
}

impl Tracing {
    /// What is wrong with the configuration.
    pub open spec fn error(self) -> Option<Seq<char>> {
        match self.otlp {
            None => Some("type=Otlp requires `otlp` (endpoint at minimum)"@),
            Some(otlp) => otlp.error(),
        }
    }

    /// Shape-validate the tagged union.
    pub fn validate(&self) -> (r: Result<(), String>)
        ensures
            report::reports(r, self.error()),
    {
        match (self.kind, &self.otlp) {
            (TracingType::Otlp, None) => Err(
                String::from_str("type=Otlp requires `otlp` (endpoint at minimum)"),
            ),
            (TracingType::Otlp, Some(otlp)) => otlp.validate(),
        }
    }
}

/// A valid configuration has an endpoint, and what it sets has a value in range.
pub proof fn lemma_valid_tracing(tracing: Tracing)
    requires
        tracing.error() is None,
    ensures
        tracing.otlp matches Some(otlp) && {
            &&& !text::blank(otlp.endpoint@)
            &&& otlp.sample_ratio matches Some(ratio) ==> ratio.value.fraction.finite()
                && 0 <= ratio.value.fraction.value() <= Binary64::integer(1).value()
            &&& otlp.service_name matches Some(name) ==> !text::blank(name@)
            &&& otlp.timeout matches Some(timeout) ==> timeout.secs.finite()
                && timeout.secs.value() > 0
        },
{
    Binary64::lemma_small_integer_is_exact(0);
    Binary64::lemma_small_integer_is_exact(1);
    Binary64::lemma_two_to_the_64();
    let one = Binary64::integer(1);
    let limit = Binary64::integer(0x1_0000_0000_0000_0000);
    binary64::lemma_magnitude_increases(one.unsigned(), INFINITE as nat);
    binary64::lemma_magnitude_increases(limit.unsigned(), INFINITE as nat);
}

/// A configuration is valid exactly where it has an endpoint that is not blank, a
/// sampling ratio from nothing to the whole, a service name that is not blank, and a
/// timeout above zero and below `2^64` seconds, each of the last three where it is set.
/// The error is about the first of these that fails.
pub proof fn lemma_tracing(tracing: Tracing, r: Result<(), String>)
    requires
        call_ensures(Tracing::validate, (&tracing,), r),
    ensures
        tracing.otlp is None ==> r is Err && r->Err_0@
            == "type=Otlp requires `otlp` (endpoint at minimum)"@,
        tracing.otlp matches Some(otlp) ==> {
            let one = pow2(SCALE as nat) as int;
            let addressed = !text::blank(otlp.endpoint@);
            let sampled = otlp.sample_ratio matches Some(ratio) ==> !ratio.value.fraction.nan()
                && 0 <= ratio.value.fraction.value() <= one;
            let named = otlp.service_name matches Some(name) ==> !text::blank(name@);
            let timed = otlp.timeout matches Some(timeout) ==> !timeout.secs.nan() && 0
                < timeout.secs.value() < 0x1_0000_0000_0000_0000 * one;
            &&& r is Ok <==> addressed && sampled && named && timed
            &&& r matches Err(message) ==> {
                &&& !addressed ==> message@ == "otlp.endpoint is required and must be non-empty"@
                &&& addressed && !sampled ==> message@
                    == "otlp.sampleRatio must be in [0.0, 1.0] (got "@ + otlp.sample_ratio->0.text@
                    + ")"@
                &&& addressed && sampled && !named ==> message@
                    == "otlp.serviceName, when set, must be non-empty"@
                &&& addressed && sampled && named ==> message@
                    == "otlp.timeout, when set, must be positive and representable"@
            }
        },
{
    Binary64::lemma_small_integer_is_exact(0);
    Binary64::lemma_small_integer_is_exact(1);
    Binary64::lemma_power_of_64_is_exact();
}

} // verus!
