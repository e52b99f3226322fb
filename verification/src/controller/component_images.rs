//! Built-in default images of the components that the operator runs.
//!
//! The operator uses one of these images when a resource sets no `spec.image` and
//! the operator has no flag for the image of that component.
//!
//! Each component repository builds and publishes its own image, and it versions
//! that image on its own. Each default therefore names the repository that
//! publishes the image, and a tag of that component. It does not use the operator
//! version.

use vstd::prelude::*;

verus! {

/// Worker image of a `KafkaConnector`, from krabka-io/krabka-connect.
pub const CONNECT_WORKER_IMAGE: &'static str = "ghcr.io/krabka-io/krabka-connect-worker:v0.4.0";

/// Image of a `KafkaGrpcGateway`, from krabka-io/krabka-gateway.
pub const GATEWAY_IMAGE: &'static str = "ghcr.io/krabka-io/krabka-gateway:v0.4.0";

/// Image of a `SchemaRegistry`, from krabka-io/krabka-schema-registry.
pub const SCHEMA_REGISTRY_IMAGE: &'static str = "ghcr.io/krabka-io/krabka-schema-registry:0.4.0";

} // verus!
