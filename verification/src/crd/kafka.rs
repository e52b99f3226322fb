//! The parts of a `Kafka` resource that carry no rules of their own.

use vstd::prelude::*;

verus! {

/// Inter-broker GSSAPI initiate config. There is one shared client principal
/// cluster-wide, and there are no per-broker host-templated SPNs.
#[derive(Debug, Clone, PartialEq, Eq)]
pub struct InterBrokerKerberos {
    /// Principal that every broker authenticates as when it dials peers, for
    /// example `kafka@EXAMPLE.COM`. It must exist in the shared keytab.
    pub client_principal: String,
    /// Target SPN primary. Defaults to `kafka`.
    pub service_name: Option<String>,
    /// KDC endpoint, for example `tcp://kdc:88`.
    pub kdc_url: String,
}

/// Reference to a Secret holding a `krb5.conf`.
#[derive(Debug, Clone, PartialEq, Eq)]
pub struct Krb5ConfSecretRef {
    /// Name of the Secret holding the krb5.conf.
    pub secret_name: String,
    /// Key within the Secret whose value is the krb5.conf contents.
    pub key: String,
}

/// Minimal namespaced Secret-key reference. It holds a name and an optional
/// data-map key, which defaults to `secret-key`.
#[derive(Debug, Clone, PartialEq, Eq)]
pub struct SecretKeyRef {
    /// Secret name in the same namespace as the `Kafka` resource.
    pub name: String,
    /// Key within the Secret's `data`. Defaults to `secret-key`.
    pub key: Option<String>,
}

impl Default for SecretKeyRef {
    fn default() -> (r: Self)
        ensures
            r.name@ == Seq::<char>::empty(),
            r.key is None,
    {
        SecretKeyRef { name: String::new(), key: None }
    }
}

/// Master-HMAC-key source for delegation tokens (KIP-48).
#[derive(Debug, Clone, PartialEq, Eq)]
pub struct DelegationTokenConfig {
    /// The Secret key that holds the broker's master HMAC key.
    pub secret_key_ref: SecretKeyRef,
}

impl Default for DelegationTokenConfig {
    fn default() -> (r: Self)
        ensures
            r.secret_key_ref.name@ == Seq::<char>::empty(),
            r.secret_key_ref.key is None,
    {
        DelegationTokenConfig { secret_key_ref: SecretKeyRef::default() }
    }
}

/// Cluster-level authorizer selection. Where there is none, every request is
/// allowed. The principal of the inter-broker traffic must be a super-user.
#[derive(Debug, Clone, PartialEq)]
pub enum Authorization {
    Simple(SimpleAuthorization),
    Opa(OpaAuthorization),
}

/// The simple authorizer: ACLs, and a list of principals that bypass them.
#[derive(Debug, Clone, PartialEq)]
pub struct SimpleAuthorization {
    /// Principals that bypass the ACL checks, for example `User:admin`.
    pub super_users: Vec<String>,
}

impl Default for SimpleAuthorization {
    fn default() -> (r: Self)
        ensures
            r.super_users@.len() == 0,
    {
        SimpleAuthorization { super_users: Vec::new() }
    }
}

/// The OPA authorizer: an HTTP endpoint that decides, with a decision cache.
/// There is no default, because `url` has no sensible one.
#[derive(Debug, Clone, PartialEq)]
pub struct OpaAuthorization {
    /// OPA decision endpoint URL, with the data-API path.
    pub url: String,
    /// Permit the operation on any OPA error. Default: false, which is
    /// fail-closed.
    pub allow_on_error: Option<bool>,
    /// Initial capacity of the decision cache.
    pub initial_cache_capacity: Option<u32>,
    /// Hard upper bound on the decision cache.
    pub maximum_cache_size: Option<u32>,
    /// Per-entry lifetime in milliseconds.
    pub expire_after_ms: Option<i64>,
    /// Principals that bypass OPA.
    pub super_users: Vec<String>,
}

/// The status of a `Kafka` resource. `Listener` is the status of a listener, and
/// `Authority` is the status of a certificate authority.
#[derive(Debug, Clone, PartialEq)]
pub struct KafkaStatus<Listener, Authority> {
    /// Standard Kubernetes-style condition list.
    pub conditions: Vec<KafkaCondition>,
    /// The same value as `StatefulSet.status.replicas`.
    pub replicas: Option<i32>,
    /// The same value as `StatefulSet.status.readyReplicas`.
    pub ready_replicas: Option<i32>,
    /// Per-listener resolved addresses.
    pub listeners: Vec<Listener>,
    pub cluster_ca: Option<Authority>,
    pub clients_ca: Option<Authority>,
    /// Echo of `spec.kafkaVersion`, for observability.
    pub kafka_version: Option<String>,
    /// The metadata version that the operator finalized.
    pub metadata_version: Option<String>,
}

impl<Listener, Authority> Default for KafkaStatus<Listener, Authority> {
    fn default() -> (r: Self)
        ensures
            r.conditions@.len() == 0,
            r.replicas is None,
            r.ready_replicas is None,
            r.listeners@.len() == 0,
            r.cluster_ca is None,
            r.clients_ca is None,
            r.kafka_version is None,
            r.metadata_version is None,
    {
        KafkaStatus {
            conditions: Vec::new(),
            replicas: None,
            ready_replicas: None,
            listeners: Vec::new(),
            cluster_ca: None,
            clients_ca: None,
            kafka_version: None,
            metadata_version: None,
        }
    }
}

#[derive(Debug, Clone, PartialEq)]
pub struct KafkaCondition {
    /// For example, `Ready`.
    pub type_: String,
    /// `True`, `False`, or `Unknown`.
    pub status: String,
    /// CamelCase machine reason.
    pub reason: String,
    /// Human-readable message.
    pub message: String,
    /// RFC3339 timestamp.
    pub last_transition_time: String,
}

} // verus!
