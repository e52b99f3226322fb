use krabka_operator::binary64::Binary64;
use krabka_operator::crd::kafka::{
    DelegationTokenConfig, KafkaStatus, SecretKeyRef, SimpleAuthorization,
};
use krabka_operator::crd::tiered_storage::{
    GcsCredentials, GcsStorageSpec, MetadataManagerSpec, MetadataManagerType, MetadataPolicy,
    S3Credentials, S3StorageSpec, TieredStorage, TieredStoragePersistence, TieredStorageType,
    TopicMetadataManagerSpec,
};
use krabka_operator::crd::tiered_storage::TieredStorageType::{Gcs, Local, S3};
use krabka_operator::crd::tracing::{OtlpProtocol, OtlpTracing, Tracing, TracingType};
use krabka_operator::units::{secs, ByteSize, Ratio, Setting, Time};

const OK: Result<(), String> = Ok(());

fn err(message: &str) -> Result<(), String> {
    Err(message.to_owned())
}

fn s3() -> S3StorageSpec {
    S3StorageSpec {
        bucket: "b".into(),
        region: "r".into(),
        ..Default::default()
    }
}

fn gcs() -> GcsStorageSpec {
    GcsStorageSpec {
        bucket: "b".into(),
        ..Default::default()
    }
}

fn storage(
    kind: TieredStorageType,
    s3: Option<S3StorageSpec>,
    gcs: Option<GcsStorageSpec>,
) -> TieredStorage {
    TieredStorage {
        kind,
        s3,
        gcs,
        ..Default::default()
    }
}

#[test]
fn a_backend_has_its_own_tuning_and_no_other() {
    let cases = [
        (storage(Local, None, None), OK),
        (storage(Local, Some(s3()), None), err("type=Local must not set `s3`")),
        (storage(Local, None, Some(gcs())), err("type=Local must not set `gcs`")),
        (storage(Local, Some(s3()), Some(gcs())), err("type=Local must not set `s3`")),
        (storage(S3, Some(s3()), None), OK),
        (
            storage(S3, None, None),
            err("type=S3 requires `s3` (bucket + region at minimum)"),
        ),
        (storage(S3, Some(s3()), Some(gcs())), err("type=S3 must not set `gcs`")),
        (storage(Gcs, None, Some(gcs())), OK),
        (storage(Gcs, None, None), err("type=Gcs requires `gcs` (bucket at minimum)")),
        (storage(Gcs, Some(s3()), Some(gcs())), err("type=Gcs must not set `s3`")),
    ];
    for (storage, expected) in cases {
        assert_eq!(storage.validate(&OK), expected);
    }
}

#[test]
fn a_backend_needs_its_required_fields() {
    for blank in ["", " ", "\t\u{3000}"] {
        let mut spec = s3();
        spec.bucket = blank.into();
        assert_eq!(
            storage(TieredStorageType::S3, Some(spec), None).validate(&OK),
            err("s3.bucket is required and must be non-empty")
        );
        let mut spec = s3();
        spec.region = blank.into();
        assert_eq!(
            storage(TieredStorageType::S3, Some(spec), None).validate(&OK),
            err("s3.region is required and must be non-empty")
        );
        let mut spec = gcs();
        spec.bucket = blank.into();
        assert_eq!(
            storage(TieredStorageType::Gcs, None, Some(spec)).validate(&OK),
            err("gcs.bucket is required and must be non-empty")
        );
    }
}

#[test]
fn persistence_belongs_to_the_local_backend() {
    let claim = TieredStoragePersistence {
        size: "50Gi".into(),
        ..Default::default()
    };
    let mut local = storage(TieredStorageType::Local, None, None);
    local.persistence = Some(claim.clone());
    assert_eq!(local.validate(&OK), OK);
    local.persistence = Some(TieredStoragePersistence::default());
    assert_eq!(
        local.validate(&OK),
        err("persistence.size is required and must be non-empty")
    );
    let mut remote = storage(TieredStorageType::S3, Some(s3()), None);
    remote.persistence = Some(claim);
    assert_eq!(
        remote.validate(&OK),
        err("persistence is only valid with type=Local")
    );
    // A bad manager comes first.
    remote.metadata_manager = Some(MetadataManagerSpec {
        kind: MetadataManagerType::InMemory,
        topic: Some(topic()),
    });
    assert_eq!(
        remote.validate(&OK),
        err("metadataManager.type=InMemory must not set `topic`")
    );
}

fn topic() -> TopicMetadataManagerSpec {
    TopicMetadataManagerSpec {
        bootstrap: "127.0.0.1:9094".into(),
        ..Default::default()
    }
}

#[test]
fn a_topic_block_belongs_to_the_topic_backed_manager() {
    let refused = err("no");
    for (kind, block, expected) in [
        (MetadataManagerType::Topic, None, OK),
        (MetadataManagerType::InMemory, None, OK),
        (
            MetadataManagerType::InMemory,
            Some(topic()),
            err("metadataManager.type=InMemory must not set `topic`"),
        ),
        (
            MetadataManagerType::Topic,
            Some(topic()),
            err("metadataManager.topic: no"),
        ),
    ] {
        let manager = MetadataManagerSpec { kind, topic: block };
        assert_eq!(manager.validate(&refused), expected);
        let mut local = storage(TieredStorageType::Local, None, None);
        local.metadata_manager = Some(manager);
        assert_eq!(local.validate(&refused), expected);
    }
    assert_eq!(topic().validate(&OK), OK);
}

#[test]
fn a_topic_block_has_its_own_rules() {
    let mut block = topic();
    block.bootstrap = " ".into();
    assert_eq!(
        block.validate(&OK),
        err("metadataManager.topic.bootstrap is required and must be non-empty")
    );
    for (n, text) in [(0, "0"), (-3, "-3"), (i32::MIN, "-2147483648")] {
        let mut block = topic();
        block.num_partitions = Some(n);
        assert_eq!(
            block.validate(&OK),
            Err(format!("metadataManager.topic.numPartitions must be > 0 (got {text})"))
        );
        let mut block = topic();
        block.replication = Some(n);
        assert_eq!(
            block.validate(&OK),
            Err(format!("metadataManager.topic.replication must be > 0 (got {text})"))
        );
    }
    let mut block = topic();
    block.event_queue_capacity = Some(0);
    assert_eq!(
        block.validate(&err("later")),
        err(
            "metadataManager.topic.event_queue_capacity: the value must be greater than 0, but \
             received 0"
        )
    );
    block.event_queue_capacity = Some(1);
    block.num_partitions = Some(1);
    block.replication = Some(1);
    assert_eq!(block.validate(&OK), OK);
}

#[test]
fn a_policy_takes_what_the_block_sets() {
    let defaults = MetadataPolicy {
        bootstrap: "default".into(),
        num_partitions: 50,
        replication: 3,
        topic_create_timeout: secs(1),
        fetch_max_wait: secs(2),
        fetch_max_bytes: ByteSize::from_bytes(3),
        fetch_retry_backoff: secs(4),
        snapshot_interval: secs(5),
    };
    let policy = topic().policy(defaults.clone());
    let expected = MetadataPolicy {
        bootstrap: "127.0.0.1:9094".into(),
        ..defaults.clone()
    };
    assert_eq!(policy, expected);
    let block = TopicMetadataManagerSpec {
        bootstrap: "x".into(),
        num_partitions: Some(10),
        replication: Some(20),
        topic_create_timeout: Some(secs(30)),
        fetch_max_wait: Some(secs(40)),
        fetch_max_bytes: Some(ByteSize::from_bytes(50)),
        fetch_retry_backoff: Some(secs(60)),
        event_queue_capacity: None,
        snapshot_interval: Some(secs(70)),
    };
    let expected = MetadataPolicy {
        bootstrap: "x".into(),
        num_partitions: 10,
        replication: 20,
        topic_create_timeout: secs(30),
        fetch_max_wait: secs(40),
        fetch_max_bytes: ByteSize::from_bytes(50),
        fetch_retry_backoff: secs(60),
        snapshot_interval: secs(70),
    };
    assert_eq!(block.policy(defaults), expected);
}

fn otlp() -> OtlpTracing {
    OtlpTracing {
        endpoint: "http://collector:4317".into(),
        protocol: None,
        sample_ratio: None,
        service_name: None,
        timeout: None,
    }
}

fn validated(otlp: OtlpTracing) -> Result<(), String> {
    Tracing {
        kind: TracingType::Otlp,
        otlp: Some(otlp),
    }
    .validate()
}

#[test]
fn tracing_needs_an_endpoint() {
    assert_eq!(validated(otlp()), OK);
    assert_eq!(
        Tracing::default().validate(),
        err("type=Otlp requires `otlp` (endpoint at minimum)")
    );
    let mut block = otlp();
    block.endpoint = "\n".into();
    assert_eq!(
        validated(block),
        err("otlp.endpoint is required and must be non-empty")
    );
    let mut block = otlp();
    block.service_name = Some(" ".into());
    assert_eq!(
        validated(block),
        err("otlp.serviceName, when set, must be non-empty")
    );
    let mut block = otlp();
    block.service_name = Some("broker".into());
    assert_eq!(validated(block), OK);
}

#[test]
fn a_sampling_ratio_is_from_nothing_to_the_whole() {
    for ratio in [
        0.0,
        -0.0,
        0.25,
        1.0,
        1.0000000000000002,
        -5e-324,
        f64::NAN,
        f64::INFINITY,
        f64::NEG_INFINITY,
        2.0,
    ] {
        let mut block = otlp();
        block.sample_ratio = Some(Setting {
            value: Ratio {
                fraction: Binary64 { bits: ratio.to_bits() },
            },
            text: ratio.to_string(),
        });
        let expected = if (0.0..=1.0).contains(&ratio) {
            OK
        } else {
            Err(format!("otlp.sampleRatio must be in [0.0, 1.0] (got {ratio})"))
        };
        assert_eq!(validated(block), expected, "{ratio}");
    }
}

#[test]
fn a_timeout_is_positive_and_representable() {
    for extent in [
        0.0,
        -0.0,
        -1.0,
        5e-324,
        1e-12,
        10.0,
        1.8446744073709550e19,
        1.8446744073709552e19,
        f64::MAX,
        f64::INFINITY,
        f64::NEG_INFINITY,
        f64::NAN,
    ] {
        let mut block = otlp();
        block.timeout = Some(Time {
            secs: Binary64 { bits: extent.to_bits() },
        });
        let invalid = extent <= 0.0 || std::time::Duration::try_from_secs_f64(extent).is_err();
        let expected = if invalid {
            err("otlp.timeout, when set, must be positive and representable")
        } else {
            OK
        };
        assert_eq!(validated(block), expected, "{extent}");
    }
}

#[test]
fn a_protocol_has_a_value_for_the_environment() {
    assert_eq!(OtlpProtocol::Grpc.as_env_value(), "grpc");
    assert_eq!(OtlpProtocol::HttpProtobuf.as_env_value(), "http/protobuf");
}

#[test]
fn defaults_say_nothing() {
    let storage = TieredStorage::default();
    assert_eq!(storage.kind, TieredStorageType::Local);
    assert_eq!(storage.kind, TieredStorageType::default());
    assert_eq!(storage.validate(&err("no")), OK);
    let manager = MetadataManagerSpec::default();
    assert_eq!(manager.kind, MetadataManagerType::Topic);
    assert_eq!(manager.kind, MetadataManagerType::default());
    assert_eq!(TracingType::default(), TracingType::Otlp);
    let empty = SecretKeyRef {
        name: String::new(),
        key: None,
    };
    assert_eq!(SecretKeyRef::default(), empty);
    assert_eq!(DelegationTokenConfig::default().secret_key_ref, empty);
    assert_eq!(S3Credentials::default().access_key_id, empty);
    assert_eq!(S3Credentials::default().secret_access_key, empty);
    assert_eq!(GcsCredentials::default().service_account_key, empty);
    assert!(SimpleAuthorization::default().super_users.is_empty());
    let status: KafkaStatus<u8, u8> = KafkaStatus::default();
    assert!(status.conditions.is_empty() && status.listeners.is_empty());
    assert!(status.cluster_ca.is_none() && status.metadata_version.is_none());
}
