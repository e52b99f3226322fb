use krabka_operator::controller::component_images::{
    CONNECT_WORKER_IMAGE, GATEWAY_IMAGE, SCHEMA_REGISTRY_IMAGE,
};

#[test]
fn defaults_name_the_publishing_repository_and_a_component_tag() {
    // A whole reference per component, so a changed name or tag fails here. None of
    // them may carry the operator version, because the components release on their
    // own.
    for (actual, expected) in [
        (
            CONNECT_WORKER_IMAGE,
            "ghcr.io/krabka-io/krabka-connect-worker:v0.4.0",
        ),
        (GATEWAY_IMAGE, "ghcr.io/krabka-io/krabka-gateway:v0.4.0"),
        (
            SCHEMA_REGISTRY_IMAGE,
            "ghcr.io/krabka-io/krabka-schema-registry:0.4.0",
        ),
    ] {
        assert!(actual == expected);
    }
}
