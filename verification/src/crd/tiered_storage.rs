//! `spec.tieredStorage`: where the brokers keep remote log segments (KIP-405),
//! and which manager keeps the metadata of those segments.

use crate::crd::kafka::SecretKeyRef;
use crate::outside;
use crate::outside::positive_usize;
use crate::crd::report;
use crate::text;
use crate::text::{decimal_i64, is_blank};
use crate::units::{ByteSize, Time};
use vstd::prelude::*;
use vstd::string::*;

verus! {

/// Cluster-wide tiered-storage configuration.
///
/// The `kind` picks the backend. The per-backend tuning is in the matching
/// sibling field: `s3` for `S3`, `gcs` for `Gcs`, and no extra field for `Local`.
#[derive(Debug, Clone, PartialEq)]
pub struct TieredStorage {
    /// Backend kind selector.
    pub kind: TieredStorageType,
    /// S3-backend tuning. It is required when `kind` is `S3`, and it must be
    /// absent in any other case.
    pub s3: Option<S3StorageSpec>,
    /// GCS-backend tuning. It is required when `kind` is `Gcs`, and it must be
    /// absent in any other case.
    pub gcs: Option<GcsStorageSpec>,
    /// The metadata manager that the broker pods run. Where it is absent, the
    /// topic-backed manager runs with its defaults.
    pub metadata_manager: Option<MetadataManagerSpec>,
    /// Durable storage for the local-tier directory. It is valid only when `kind`
    /// is `Local`.
    pub persistence: Option<TieredStoragePersistence>,
}

/// PVC-backed local-tier directory.
#[derive(Debug, Clone, PartialEq, Eq)]
pub struct TieredStoragePersistence {
    /// Kubernetes `Quantity`, for example `50Gi`. It must be non-empty.
    pub size: String,
    /// Storage class name. `None` means the cluster default.
    pub class: Option<String>,
    /// Whether the claim goes when its pool goes.
    pub delete_claim: bool,
}

impl Default for TieredStoragePersistence {
    fn default() -> (r: Self)
        ensures
            r.size@ == Seq::<char>::empty(),
            r.class is None,
            !r.delete_claim,
    {
        TieredStoragePersistence { size: String::new(), class: None, delete_claim: false }
    }
}

/// The storage backends.
#[derive(Debug, Clone, Copy, PartialEq, Eq, Structural)]
pub enum TieredStorageType {
    /// On-pod filesystem store.
    Local,
    /// S3-compatible object store.
    S3,
    /// Native Google Cloud Storage.
    Gcs,
}

impl Default for TieredStorageType {
    fn default() -> (r: Self)
        ensures
            r == TieredStorageType::Local,
    {
        TieredStorageType::Local
    }
}

/// S3 backend configuration.
#[derive(Debug, Clone, PartialEq, Eq)]
pub struct S3StorageSpec {
    /// S3 bucket name. Required.
    pub bucket: String,
    /// AWS region. Required.
    pub region: String,
    /// Optional key prefix inside the bucket.
    pub prefix: Option<String>,
    /// Optional custom endpoint URL.
    pub endpoint: Option<String>,
    /// Optional explicit credentials. Where there are none, the AWS credential
    /// chain applies.
    pub credentials: Option<S3Credentials>,
    /// Allow plaintext HTTP.
    pub allow_http: bool,
    /// Override the single-PUT and multipart cutoff in bytes.
    pub multipart_threshold: Option<u64>,
    /// Override the per-part size for multipart uploads in bytes.
    pub multipart_chunk_size: Option<u64>,
}

impl Default for S3StorageSpec {
    fn default() -> (r: Self)
        ensures
            r.bucket@ == Seq::<char>::empty(),
            r.region@ == Seq::<char>::empty(),
            r.prefix is None,
            r.endpoint is None,
            r.credentials is None,
            !r.allow_http,
            r.multipart_threshold is None,
            r.multipart_chunk_size is None,
    {
        S3StorageSpec {
            bucket: String::new(),
            region: String::new(),
            prefix: None,
            endpoint: None,
            credentials: None,
            allow_http: false,
            multipart_threshold: None,
            multipart_chunk_size: None,
        }
    }
}

/// S3 access-key credential pair. The two halves may be in separate Secrets.
#[derive(Debug, Clone, PartialEq, Eq)]
pub struct S3Credentials {
    /// Reference to the Secret holding the `AWS_ACCESS_KEY_ID` value.
    pub access_key_id: SecretKeyRef,
    /// Reference to the Secret holding the `AWS_SECRET_ACCESS_KEY` value.
    pub secret_access_key: SecretKeyRef,
}

impl Default for S3Credentials {
    fn default() -> (r: Self)
        ensures
            r.access_key_id.name@ == Seq::<char>::empty(),
            r.access_key_id.key is None,
            r.secret_access_key.name@ == Seq::<char>::empty(),
            r.secret_access_key.key is None,
    {
        S3Credentials {
            access_key_id: SecretKeyRef::default(),
            secret_access_key: SecretKeyRef::default(),
        }
    }
}

/// Native GCS backend configuration.
#[derive(Debug, Clone, PartialEq, Eq)]
pub struct GcsStorageSpec {
    /// GCS bucket name. Required.
    pub bucket: String,
    /// Optional key prefix inside the bucket.
    pub prefix: Option<String>,
    /// Optional custom GCS API base URL.
    pub endpoint: Option<String>,
    /// Optional explicit service-account credentials. Where there are none, the
    /// keyless path applies.
    pub credentials: Option<GcsCredentials>,
    /// Allow plaintext HTTP.
    pub allow_http: bool,
    /// Override the single-PUT and multipart cutoff in bytes.
    pub multipart_threshold: Option<u64>,
    /// Override the per-part size for multipart uploads in bytes.
    pub multipart_chunk_size: Option<u64>,
}

impl Default for GcsStorageSpec {
    fn default() -> (r: Self)
        ensures
            r.bucket@ == Seq::<char>::empty(),
            r.prefix is None,
            r.endpoint is None,
            r.credentials is None,
            !r.allow_http,
            r.multipart_threshold is None,
            r.multipart_chunk_size is None,
    {
        GcsStorageSpec {
            bucket: String::new(),
            prefix: None,
            endpoint: None,
            credentials: None,
            allow_http: false,
            multipart_threshold: None,
            multipart_chunk_size: None,
        }
    }
}

/// GCS service-account credential.
#[derive(Debug, Clone, PartialEq, Eq)]
pub struct GcsCredentials {
    /// Reference to the Secret holding the service-account JSON key.
    pub service_account_key: SecretKeyRef,
}

impl Default for GcsCredentials {
    fn default() -> (r: Self)
        ensures
            r.service_account_key.name@ == Seq::<char>::empty(),
            r.service_account_key.key is None,
    {
        GcsCredentials { service_account_key: SecretKeyRef::default() }
    }
}

impl Default for TieredStorage {
    fn default() -> (r: Self)
        ensures
            r.kind == TieredStorageType::Local,
            r.s3 is None,
            r.gcs is None,
            r.metadata_manager is None,
            r.persistence is None,
    {
        TieredStorage {
            kind: TieredStorageType::Local,
            s3: None,
            gcs: None,
            metadata_manager: None,
            persistence: None,
        }
    }
}

impl TieredStorage {
    /// What is wrong with the backend: the kind and the sibling fields disagree,
    /// or a required field has no value.
    pub open spec fn backend_error(self) -> Option<Seq<char>> {
        match self.kind {
            TieredStorageType::Local => if self.s3 is Some {
                Some("type=Local must not set `s3`"@)
            } else if self.gcs is Some {
                Some("type=Local must not set `gcs`"@)
            } else {
                None
            },
            TieredStorageType::S3 => if self.gcs is Some {
                Some("type=S3 must not set `gcs`"@)
            } else {
                match self.s3 {
                    None => Some("type=S3 requires `s3` (bucket + region at minimum)"@),
                    Some(s3) => if text::blank(s3.bucket@) {
                        Some("s3.bucket is required and must be non-empty"@)
                    } else if text::blank(s3.region@) {
                        Some("s3.region is required and must be non-empty"@)
                    } else {
                        None
                    },
                }
            },
            TieredStorageType::Gcs => if self.s3 is Some {
                Some("type=Gcs must not set `s3`"@)
            } else {
                match self.gcs {
                    None => Some("type=Gcs requires `gcs` (bucket at minimum)"@),
                    Some(gcs) => if text::blank(gcs.bucket@) {
                        Some("gcs.bucket is required and must be non-empty"@)
                    } else {
                        None
                    },
                }
            },
        }
    }

    /// What is wrong with the durable storage for the local-tier directory.
    pub open spec fn persistence_error(self) -> Option<Seq<char>> {
        match self.persistence {
            None => None,
            Some(persistence) => if self.kind != TieredStorageType::Local {
                Some("persistence is only valid with type=Local"@)
            } else if text::blank(persistence.size@) {
                Some("persistence.size is required and must be non-empty"@)
            } else {
                None
            },
        }
    }

    /// What is wrong with the configuration, where the broker judges the policy of
    /// the metadata manager with `policy`.
    pub open spec fn error(self, policy: Result<(), String>) -> Option<Seq<char>> {
        report::or_else(
            self.backend_error(),
            report::or_else(
                match self.metadata_manager {
                    Some(manager) => manager.error(policy),
                    None => None,
                },
                self.persistence_error(),
            ),
        )
    }

    fn validate_backend(&self) -> (r: Result<(), String>)
        ensures
            report::reports(r, self.backend_error()),
    {
        match self.kind {
            TieredStorageType::Local => {
                if self.s3.is_some() {
                    return Err(String::from_str("type=Local must not set `s3`"));
                }
                if self.gcs.is_some() {
                    return Err(String::from_str("type=Local must not set `gcs`"));
                }
            },
            TieredStorageType::S3 => {
                if self.gcs.is_some() {
                    return Err(String::from_str("type=S3 must not set `gcs`"));
                }
                match &self.s3 {
                    None => {
                        return Err(
                            String::from_str("type=S3 requires `s3` (bucket + region at minimum)"),
                        );
                    },
                    Some(s3) => {
                        if is_blank(s3.bucket.as_str()) {
                            return Err(
                                String::from_str("s3.bucket is required and must be non-empty"),
                            );
                        }
                        if is_blank(s3.region.as_str()) {
                            return Err(
                                String::from_str("s3.region is required and must be non-empty"),
                            );
                        }
                    },
                }
            },
            TieredStorageType::Gcs => {
                if self.s3.is_some() {
                    return Err(String::from_str("type=Gcs must not set `s3`"));
                }
                match &self.gcs {
                    None => {
                        return Err(String::from_str("type=Gcs requires `gcs` (bucket at minimum)"));
                    },
                    Some(gcs) => {
                        if is_blank(gcs.bucket.as_str()) {
                            return Err(
                                String::from_str("gcs.bucket is required and must be non-empty"),
                            );
                        }
                    },
                }
            },
        }
        Ok(())
    }

    /// Shape-validate the tagged union. On a failure it returns the description of
    /// the offending field.
    ///
    /// `policy` is the broker's verdict on the policy that
    /// [`TopicMetadataManagerSpec::policy`] gives for the topic block. Where there
    /// is no such block, it plays no part.
    pub fn validate(&self, policy: &Result<(), String>) -> (r: Result<(), String>)
        ensures
            report::reports(r, self.error(*policy)),
    {
        self.validate_backend()?;
        if let Some(manager) = &self.metadata_manager {
            manager.validate(policy)?;
        }
        if let Some(persistence) = &self.persistence {
            if self.kind != TieredStorageType::Local {
                return Err(String::from_str("persistence is only valid with type=Local"));
            }
            if is_blank(persistence.size.as_str()) {
                return Err(String::from_str("persistence.size is required and must be non-empty"));
            }
        }
        Ok(())
    }
}

/// Which metadata manager the broker pods use. The default is the topic-backed
/// manager.
#[derive(Debug, Clone, PartialEq)]
pub struct MetadataManagerSpec {
    /// Implementation selector.
    pub kind: MetadataManagerType,
    /// Topic-backed tuning. It is optional when `kind` is `Topic`, and it must be
    /// absent in any other case.
    pub topic: Option<TopicMetadataManagerSpec>,
}

impl Default for MetadataManagerSpec {
    fn default() -> (r: Self)
        ensures
            r.kind == MetadataManagerType::Topic,
            r.topic is None,
    {
        MetadataManagerSpec { kind: MetadataManagerType::Topic, topic: None }
    }
}

/// The metadata managers.
#[derive(Debug, Clone, Copy, PartialEq, Eq, Structural)]
pub enum MetadataManagerType {
    /// In-memory fixture, for test and development.
    InMemory,
    /// Production topic-backed manager.
    Topic,
}

impl Default for MetadataManagerType {
    fn default() -> (r: Self)
        ensures
            r == MetadataManagerType::Topic,
    {
        MetadataManagerType::Topic
    }
}

impl MetadataManagerSpec {
    /// What is wrong with the manager, where the broker judges the policy of its
    /// topic block with `policy`.
    pub open spec fn error(self, policy: Result<(), String>) -> Option<Seq<char>> {
        match self.topic {
            None => None,
            Some(topic) => match self.kind {
                MetadataManagerType::InMemory => Some(
                    "metadataManager.type=InMemory must not set `topic`"@,
                ),
                MetadataManagerType::Topic => topic.error(policy),
            },
        }
    }

    /// Shape-validate. `policy` is the broker's verdict on the policy of the topic
    /// block.
    pub fn validate(&self, policy: &Result<(), String>) -> (r: Result<(), String>)
        ensures
            report::reports(r, self.error(*policy)),
    {
        match (self.kind, &self.topic) {
            (MetadataManagerType::InMemory, Some(_)) => Err(
                String::from_str("metadataManager.type=InMemory must not set `topic`"),
            ),
            (MetadataManagerType::Topic, Some(topic)) => topic.validate(policy),
            (_, None) => Ok(()),
        }
    }
}

/// Topic-backed metadata manager tuning.
#[derive(Debug, Clone, PartialEq)]
pub struct TopicMetadataManagerSpec {
    /// `host:port` that the broker pod dials to reach its own listener.
    pub bootstrap: String,
    /// Partition count of the metadata topic on the first creation.
    pub num_partitions: Option<i32>,
    /// Replication factor of the metadata topic on the first creation.
    pub replication: Option<i32>,
    /// Timeout for provisioning each internal metadata topic.
    pub topic_create_timeout: Option<Time>,
    /// Maximum wait for each per-partition metadata fetch.
    pub fetch_max_wait: Option<Time>,
    /// Maximum bytes returned by each per-partition metadata fetch.
    pub fetch_max_bytes: Option<ByteSize>,
    /// Backoff after a failed metadata fetch.
    pub fetch_retry_backoff: Option<Time>,
    /// Capacity of the shared metadata-event delivery queue.
    pub event_queue_capacity: Option<usize>,
    /// Cache snapshot cadence.
    pub snapshot_interval: Option<Time>,
}

impl Default for TopicMetadataManagerSpec {
    fn default() -> (r: Self)
        ensures
            r.bootstrap@ == Seq::<char>::empty(),
            r.num_partitions is None,
            r.replication is None,
            r.topic_create_timeout is None,
            r.fetch_max_wait is None,
            r.fetch_max_bytes is None,
            r.fetch_retry_backoff is None,
            r.event_queue_capacity is None,
            r.snapshot_interval is None,
    {
        TopicMetadataManagerSpec {
            bootstrap: String::new(),
            num_partitions: None,
            replication: None,
            topic_create_timeout: None,
            fetch_max_wait: None,
            fetch_max_bytes: None,
            fetch_retry_backoff: None,
            event_queue_capacity: None,
            snapshot_interval: None,
        }
    }
}

/// The policy of the topic-backed metadata manager, as far as a resource sets it.
#[derive(Debug, Clone, PartialEq)]
pub struct MetadataPolicy {
    pub bootstrap: String,
    pub num_partitions: i32,
    pub replication: i32,
    pub topic_create_timeout: Time,
    pub fetch_max_wait: Time,
    pub fetch_max_bytes: ByteSize,
    pub fetch_retry_backoff: Time,
    pub snapshot_interval: Time,
}

/// What is set, or else the default.
pub open spec fn set_or<T>(setting: Option<T>, default: T) -> T {
    match setting {
        Some(value) => value,
        None => default,
    }
}

impl TopicMetadataManagerSpec {
    /// What is wrong with the topic block, where the broker judges its policy with
    /// `policy`.
    pub open spec fn error(self, policy: Result<(), String>) -> Option<Seq<char>> {
        if text::blank(self.bootstrap@) {
            Some("metadataManager.topic.bootstrap is required and must be non-empty"@)
        } else if self.num_partitions matches Some(n) && n <= 0 {
            Some(
                "metadataManager.topic.numPartitions must be > 0 (got "@ + text::signed_decimal(
                    self.num_partitions->0 as int,
                ) + ")"@,
            )
        } else if self.replication matches Some(n) && n <= 0 {
            Some(
                "metadataManager.topic.replication must be > 0 (got "@ + text::signed_decimal(
                    self.replication->0 as int,
                ) + ")"@,
            )
        } else if self.event_queue_capacity == Some(0usize) {
            Some("metadataManager.topic.event_queue_capacity: "@ + outside::not_positive(0))
        } else {
            match policy {
                Ok(_) => None,
                Err(error) => Some("metadataManager.topic: "@ + error@),
            }
        }
    }

    /// The policy that is in force: what the block sets, and `defaults` for the
    /// rest.
    pub fn policy(&self, defaults: MetadataPolicy) -> (r: MetadataPolicy)
        ensures
            r.bootstrap@ == self.bootstrap@,
            r.num_partitions == set_or(self.num_partitions, defaults.num_partitions),
            r.replication == set_or(self.replication, defaults.replication),
            r.topic_create_timeout == set_or(
                self.topic_create_timeout,
                defaults.topic_create_timeout,
            ),
            r.fetch_max_wait == set_or(self.fetch_max_wait, defaults.fetch_max_wait),
            r.fetch_max_bytes == set_or(self.fetch_max_bytes, defaults.fetch_max_bytes),
            r.fetch_retry_backoff == set_or(self.fetch_retry_backoff, defaults.fetch_retry_backoff),
            r.snapshot_interval == set_or(self.snapshot_interval, defaults.snapshot_interval),
    {
        MetadataPolicy {
            bootstrap: self.bootstrap.clone(),
            num_partitions: self.num_partitions.unwrap_or(defaults.num_partitions),
            replication: self.replication.unwrap_or(defaults.replication),
            topic_create_timeout: self.topic_create_timeout.unwrap_or(
                defaults.topic_create_timeout,
            ),
            fetch_max_wait: self.fetch_max_wait.unwrap_or(defaults.fetch_max_wait),
            fetch_max_bytes: self.fetch_max_bytes.unwrap_or(defaults.fetch_max_bytes),
            fetch_retry_backoff: self.fetch_retry_backoff.unwrap_or(defaults.fetch_retry_backoff),
            snapshot_interval: self.snapshot_interval.unwrap_or(defaults.snapshot_interval),
        }
    }

    /// Shape-validate. `policy` is the broker's verdict on [`Self::policy`].
    pub fn validate(&self, policy: &Result<(), String>) -> (r: Result<(), String>)
        ensures
            report::reports(r, self.error(*policy)),
    {
        if is_blank(self.bootstrap.as_str()) {
            return Err(
                String::from_str(
                    "metadataManager.topic.bootstrap is required and must be non-empty",
                ),
            );
        }
        if let Some(n) = self.num_partitions {
            if n <= 0 {
                return Err(got("metadataManager.topic.numPartitions must be > 0 (got ", n));
            }
        }
        if let Some(n) = self.replication {
            if n <= 0 {
                return Err(got("metadataManager.topic.replication must be > 0 (got ", n));
            }
        }
        if let Some(capacity) = self.event_queue_capacity {
            if let Err(error) = positive_usize(capacity) {
                let mut message = String::from_str("metadataManager.topic.event_queue_capacity: ");
                message.append(error.as_str());
                return Err(message);
            }
        }
        match policy {
            Ok(_) => Ok(()),
            Err(error) => {
                let mut message = String::from_str("metadataManager.topic: ");
                message.append(error.as_str());
                Err(message)
            },
        }
    }
}

/// `text`, the number `n`, and a closing parenthesis.
fn got(text: &str, n: i32) -> (r: String)
    ensures
        r@ == text@ + text::signed_decimal(n as int) + ")"@,
{
    let mut message = String::from_str(text);
    message.append(decimal_i64(n as i64).as_str());
    message.append(")");
    message
}

/// A valid configuration has the tuning of its backend and of no other, with a
/// value for every field that the backend needs. It has durable storage for the
/// local-tier directory only on the local backend.
pub proof fn lemma_valid_storage_is_paired(storage: TieredStorage, policy: Result<(), String>)
    requires
        storage.error(policy) is None,
    ensures
        storage.s3 is Some <==> storage.kind == TieredStorageType::S3,
        storage.gcs is Some <==> storage.kind == TieredStorageType::Gcs,
        storage.s3 matches Some(s3) ==> !text::blank(s3.bucket@) && !text::blank(s3.region@),
        storage.gcs matches Some(gcs) ==> !text::blank(gcs.bucket@),
        storage.persistence matches Some(persistence) ==> storage.kind == TieredStorageType::Local
            && !text::blank(persistence.size@),
{
}

/// A valid metadata manager has a topic block only where it is topic-backed, and
/// then the broker accepts the policy of the block.
pub proof fn lemma_valid_manager_is_paired(manager: MetadataManagerSpec, policy: Result<(), String>)
    requires
        manager.error(policy) is None,
    ensures
        manager.topic is Some ==> manager.kind == MetadataManagerType::Topic && policy is Ok,
        manager.topic matches Some(topic) ==> {
            &&& !text::blank(topic.bootstrap@)
            &&& topic.num_partitions matches Some(n) ==> n > 0
            &&& topic.replication matches Some(n) ==> n > 0
            &&& topic.event_queue_capacity matches Some(n) ==> n > 0
        },
{
}

/// A manager without a topic block is valid, whatever its kind and whatever the
/// broker says.
pub proof fn lemma_bare_manager_is_valid(manager: MetadataManagerSpec, policy: Result<(), String>)
    requires
        manager.topic is None,
    ensures
        manager.error(policy) is None,
{
}

/// A topic block is valid exactly where its bootstrap address is not blank, each of its
/// counts is absent or above zero, and the broker accepts its policy. The error is about
/// the first of these that fails.
pub proof fn lemma_topic_block(
    topic: TopicMetadataManagerSpec,
    policy: Result<(), String>,
    r: Result<(), String>,
)
    requires
        call_ensures(TopicMetadataManagerSpec::validate, (&topic, &policy), r),
    ensures
        ({
            let addressed = !text::blank(topic.bootstrap@);
            let partitioned = topic.num_partitions matches Some(n) ==> n > 0;
            let replicated = topic.replication matches Some(n) ==> n > 0;
            let queued = topic.event_queue_capacity matches Some(n) ==> n > 0;
            &&& r is Ok <==> addressed && partitioned && replicated && queued && policy is Ok
            &&& r matches Err(message) ==> {
                &&& !addressed ==> message@
                    == "metadataManager.topic.bootstrap is required and must be non-empty"@
                &&& addressed && !partitioned ==> message@
                    == "metadataManager.topic.numPartitions must be > 0 (got "@
                    + text::signed_decimal(topic.num_partitions->0 as int) + ")"@
                &&& addressed && partitioned && !replicated ==> message@
                    == "metadataManager.topic.replication must be > 0 (got "@
                    + text::signed_decimal(topic.replication->0 as int) + ")"@
                &&& addressed && partitioned && replicated && !queued ==> message@
                    == "metadataManager.topic.event_queue_capacity: "@ + outside::not_positive(0)
                &&& addressed && partitioned && replicated && queued ==> message@
                    == "metadataManager.topic: "@ + policy->Err_0@
            }
        }),
{
}

/// A manager is valid exactly where it has no topic block, or where it is topic-backed
/// and its block is valid. What is wrong with the block is wrong with the manager.
pub proof fn lemma_manager(
    manager: MetadataManagerSpec,
    policy: Result<(), String>,
    topic: Result<(), String>,
    r: Result<(), String>,
)
    requires
        call_ensures(MetadataManagerSpec::validate, (&manager, &policy), r),
        manager.topic matches Some(block) ==> call_ensures(
            TopicMetadataManagerSpec::validate,
            (&block, &policy),
            topic,
        ),
    ensures
        manager.topic is None ==> r is Ok,
        manager.topic is Some && manager.kind == MetadataManagerType::Topic ==> {
            &&& r is Ok <==> topic is Ok
            &&& r matches Err(message) ==> topic matches Err(error) && message@ == error@
        },
        manager.topic is Some && manager.kind == MetadataManagerType::InMemory ==> r is Err
            && r->Err_0@ == "metadataManager.type=InMemory must not set `topic`"@,
{
}

/// Whether a configuration has the tuning of its backend and of no other, with a value
/// for every field that the backend needs.
pub open spec fn backed(storage: TieredStorage) -> bool {
    &&& storage.s3 is Some <==> storage.kind == TieredStorageType::S3
    &&& storage.gcs is Some <==> storage.kind == TieredStorageType::Gcs
    &&& storage.s3 matches Some(s3) ==> !text::blank(s3.bucket@) && !text::blank(s3.region@)
    &&& storage.gcs matches Some(gcs) ==> !text::blank(gcs.bucket@)
}

/// A configuration is valid exactly where it has the tuning of its backend and of no
/// other, its metadata manager is valid where it has one, and it has durable storage
/// only on the local backend and with a size. The backend is judged before the manager,
/// and the manager before the durable storage.
pub proof fn lemma_storage(
    storage: TieredStorage,
    policy: Result<(), String>,
    manager: Result<(), String>,
    r: Result<(), String>,
)
    requires
        call_ensures(TieredStorage::validate, (&storage, &policy), r),
        storage.metadata_manager matches Some(spec) ==> call_ensures(
            MetadataManagerSpec::validate,
            (&spec, &policy),
            manager,
        ),
    ensures
        ({
            let managed = storage.metadata_manager is Some ==> manager is Ok;
            let durable = storage.persistence matches Some(persistence) ==> storage.kind
                == TieredStorageType::Local && !text::blank(persistence.size@);
            &&& r is Ok <==> backed(storage) && managed && durable
            &&& backed(storage) && !managed ==> r is Err && r->Err_0@ == manager->Err_0@
            &&& backed(storage) && managed && !durable ==> r is Err && r->Err_0@
                == if storage.kind == TieredStorageType::Local {
                "persistence.size is required and must be non-empty"@
            } else {
                "persistence is only valid with type=Local"@
            }
        }),
{
}

/// A backend that has the tuning of another, or lacks its own, is refused with a message
/// that names the backend and the tuning.
pub proof fn lemma_backend_errors(
    storage: TieredStorage,
    policy: Result<(), String>,
    r: Result<(), String>,
)
    requires
        call_ensures(TieredStorage::validate, (&storage, &policy), r),
        r is Err,
    ensures
        storage.kind == TieredStorageType::Local && storage.s3 is Some ==> r->Err_0@
            == "type=Local must not set `s3`"@,
        storage.kind == TieredStorageType::Local && storage.s3 is None && storage.gcs is Some
            ==> r->Err_0@ == "type=Local must not set `gcs`"@,
        storage.kind == TieredStorageType::S3 && storage.gcs is Some ==> r->Err_0@
            == "type=S3 must not set `gcs`"@,
        storage.kind == TieredStorageType::S3 && storage.gcs is None && storage.s3 is None
            ==> r->Err_0@ == "type=S3 requires `s3` (bucket + region at minimum)"@,
        storage.kind == TieredStorageType::S3 && storage.gcs is None && (storage.s3 matches Some(s3)
            && text::blank(s3.bucket@)) ==> r->Err_0@
            == "s3.bucket is required and must be non-empty"@,
        storage.kind == TieredStorageType::S3 && storage.gcs is None && (storage.s3 matches Some(s3)
            && !text::blank(s3.bucket@) && text::blank(s3.region@)) ==> r->Err_0@
            == "s3.region is required and must be non-empty"@,
        storage.kind == TieredStorageType::Gcs && storage.s3 is Some ==> r->Err_0@
            == "type=Gcs must not set `s3`"@,
        storage.kind == TieredStorageType::Gcs && storage.s3 is None && storage.gcs is None
            ==> r->Err_0@ == "type=Gcs requires `gcs` (bucket at minimum)"@,
        storage.kind == TieredStorageType::Gcs && storage.s3 is None && (
        storage.gcs matches Some(gcs) && text::blank(gcs.bucket@)) ==> r->Err_0@
            == "gcs.bucket is required and must be non-empty"@,
{
}

/// The policy in force takes each value from the block where the block sets it, and from
/// the defaults where it does not.
pub proof fn lemma_policy(
    topic: TopicMetadataManagerSpec,
    defaults: MetadataPolicy,
    r: MetadataPolicy,
)
    requires
        call_ensures(TopicMetadataManagerSpec::policy, (&topic, defaults), r),
    ensures
        r.bootstrap@ == topic.bootstrap@,
        topic.num_partitions matches Some(n) ==> r.num_partitions == n,
        topic.num_partitions is None ==> r.num_partitions == defaults.num_partitions,
        topic.replication matches Some(n) ==> r.replication == n,
        topic.replication is None ==> r.replication == defaults.replication,
        topic.topic_create_timeout matches Some(t) ==> r.topic_create_timeout == t,
        topic.topic_create_timeout is None ==> r.topic_create_timeout
            == defaults.topic_create_timeout,
        topic.fetch_max_wait matches Some(t) ==> r.fetch_max_wait == t,
        topic.fetch_max_wait is None ==> r.fetch_max_wait == defaults.fetch_max_wait,
        topic.fetch_max_bytes matches Some(n) ==> r.fetch_max_bytes == n,
        topic.fetch_max_bytes is None ==> r.fetch_max_bytes == defaults.fetch_max_bytes,
        topic.fetch_retry_backoff matches Some(t) ==> r.fetch_retry_backoff == t,
        topic.fetch_retry_backoff is None ==> r.fetch_retry_backoff == defaults.fetch_retry_backoff,
        topic.snapshot_interval matches Some(t) ==> r.snapshot_interval == t,
        topic.snapshot_interval is None ==> r.snapshot_interval == defaults.snapshot_interval,
{
}

} // verus!
