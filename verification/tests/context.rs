use krabka_operator::context::{
    identity, secret_unreadable, AdminSource, ClientCache, Connection, Context, Scope, Secret,
};
use krabka_operator::gen_crds::crd_file_name;

fn secret(version: Option<&str>) -> Secret {
    Secret {
        resource_version: version.map(Into::into),
        data: Some(vec![
            ("user.key".into(), vec![3]),
            ("ca.crt".into(), vec![1]),
            ("user.crt".into(), vec![2]),
        ]),
    }
}

fn connection(
    context: &Context<u32, u32>,
    cluster: &str,
    bootstrap: &str,
    version: Option<&str>,
) -> Option<Connection> {
    match context.admin_client_for("ns", cluster, bootstrap, "s", Some(&secret(version))) {
        Ok(AdminSource::Connect(connection, _)) => Some(connection),
        Ok(AdminSource::Cached(_)) => None,
        Ok(AdminSource::ReadSecret) => panic!("the Secret is read"),
        Err(error) => panic!("{error}"),
    }
}

fn cached(
    context: &Context<u32, u32>,
    cluster: &str,
    bootstrap: &str,
    version: Option<&str>,
) -> Option<u32> {
    match context.admin_client_for("ns", cluster, bootstrap, "s", Some(&secret(version))) {
        Ok(AdminSource::Cached(client)) => Some(*client),
        Ok(AdminSource::Connect(..)) => None,
        Ok(AdminSource::ReadSecret) => panic!("the Secret is read"),
        Err(error) => panic!("{error}"),
    }
}

fn cached_before_the_secret(context: &Context<u32, u32>, cluster: &str) -> Option<u32> {
    match context.admin_client_for("ns", cluster, "a:1", "s", None) {
        Ok(AdminSource::Cached(client)) => Some(*client),
        Ok(AdminSource::ReadSecret) => None,
        Ok(AdminSource::Connect(..)) => panic!("a connection without an identity"),
        Err(error) => panic!("{error}"),
    }
}

#[test]
fn a_cache_keeps_one_client_per_key() {
    let mut cache: ClientCache<u32> = ClientCache::new();
    assert_eq!(cache.get("a"), None);
    cache.insert("a".into(), 1);
    cache.insert("b".into(), 2);
    cache.insert("a".into(), 3);
    assert_eq!(cache.get("a"), Some(&3));
    assert_eq!(cache.get("b"), Some(&2));
    cache.remove("a");
    assert_eq!(cache.get("a"), None);
    cache.remove("missing");
    assert_eq!(cache.get("b"), Some(&2));
}

#[test]
fn a_scope_covers_its_keys() {
    for (scope, left) in [
        (Scope::Key("c"), vec!["c\0n", "cc", "cc\0n", "d"]),
        (Scope::Prefix("c"), vec!["d"]),
        (Scope::Prefix(""), vec![]),
        (Scope::Cluster("c"), vec!["cc", "cc\0n", "d"]),
    ] {
        let keys = ["c", "c\0n", "cc", "cc\0n", "d"];
        let mut cache: ClientCache<u32> = ClientCache::new();
        for key in keys {
            cache.insert(key.into(), 0);
        }
        cache.evict(&scope);
        let kept: Vec<&str> = keys.into_iter().filter(|key| cache.get(key).is_some()).collect();
        assert_eq!(kept, left);
    }
}

#[test]
fn a_connection_names_its_key_and_its_server() {
    let context: Context<u32, u32> = Context::new();
    let made = connection(&context, "demo", "demo:9093", Some("7")).unwrap();
    assert_eq!(made.prefix, "demo\0ns\0demo:9093\0");
    assert_eq!(made.key, "demo\0ns\0demo:9093\x007");
    assert_eq!(made.server_name, "demo-broker-headless.ns.svc.cluster.local");
    let made = connection(&context, "demo", "demo:9093", None).unwrap();
    assert_eq!(made.key, "demo\0ns\0demo:9093\0unknown");
}

#[test]
fn a_connected_client_is_cached_until_its_identity_changes() {
    let mut context: Context<u32, u32> = Context::new();
    let made = connection(&context, "demo", "a:1", Some("1")).unwrap();
    context.connected(made, 10);
    let made = connection(&context, "demo", "b:1", Some("1")).unwrap();
    context.connected(made, 20);
    assert_eq!(cached(&context, "demo", "a:1", Some("1")), Some(10));
    assert_eq!(cached(&context, "demo", "b:1", Some("1")), Some(20));
    assert_eq!(cached_before_the_secret(&context, "demo"), None);

    let made = connection(&context, "demo", "a:1", Some("2")).unwrap();
    context.connected(made, 11);
    assert_eq!(cached(&context, "demo", "a:1", Some("2")), Some(11));
    assert_eq!(cached(&context, "demo", "a:1", Some("1")), None);
    assert_eq!(cached(&context, "demo", "b:1", Some("1")), Some(20));
}

#[test]
fn dropping_a_cluster_leaves_the_others() {
    let mut context: Context<u32, u32> = Context::new();
    for (cluster, client) in [("demo", 1), ("demo2", 2), ("d", 3)] {
        for bootstrap in ["a:1", "b:1"] {
            let made = connection(&context, cluster, bootstrap, Some("1")).unwrap();
            context.connected(made, client);
        }
    }
    context.insert_admin_client_for_test("demo", 4);
    context.drop_admin_client("demo");
    assert_eq!(cached_before_the_secret(&context, "demo"), None);
    for bootstrap in ["a:1", "b:1"] {
        assert_eq!(cached(&context, "demo", bootstrap, Some("1")), None);
        assert_eq!(cached(&context, "demo2", bootstrap, Some("1")), Some(2));
        assert_eq!(cached(&context, "d", bootstrap, Some("1")), Some(3));
    }
}

#[test]
fn a_client_for_the_cluster_stands_for_every_address() {
    let mut context: Context<u32, u32> = Context::new();
    context.insert_admin_client_for_test("demo", 5);
    assert_eq!(cached_before_the_secret(&context, "demo"), Some(5));
    assert_eq!(cached(&context, "demo", "a:1", None), Some(5));
    // It needs no identity.
    let empty = Secret {
        resource_version: None,
        data: None,
    };
    assert!(matches!(
        context.admin_client_for("ns", "demo", "a:1", "s", Some(&empty)),
        Ok(AdminSource::Cached(5))
    ));
}

#[test]
fn a_connection_has_the_identity_of_its_secret() {
    let context: Context<u32, u32> = Context::new();
    assert_eq!(cached_before_the_secret(&context, "demo"), None);
    let secret = secret(Some("7"));
    match context.admin_client_for("ns", "demo", "a:1", "s", Some(&secret)) {
        Ok(AdminSource::Connect(connection, identity)) => {
            assert_eq!(connection.key, "demo\0ns\0a:1\x007");
            assert_eq!(identity.ca, &vec![1]);
            assert_eq!(identity.cert, &vec![2]);
            assert_eq!(identity.key, &vec![3]);
        }
        _ => panic!("no connection"),
    }
}

#[test]
fn a_cached_client_needs_no_identity_and_a_new_one_does() {
    let mut context: Context<u32, u32> = Context::new();
    let mut partial = secret(Some("1"));
    partial.data = Some(vec![("ca.crt".into(), vec![1])]);
    match context.admin_client_for("ns", "demo", "a:1", "s", Some(&partial)) {
        Err(error) => assert_eq!(error, "operator identity Secret ns/s has no user.crt"),
        Ok(_) => panic!("a part of an identity"),
    }
    let made = connection(&context, "demo", "a:1", Some("1")).unwrap();
    context.connected(made, 10);
    assert!(matches!(
        context.admin_client_for("ns", "demo", "a:1", "s", Some(&partial)),
        Ok(AdminSource::Cached(10))
    ));
    // A client at one address does not stand for the cluster.
    assert_eq!(cached_before_the_secret(&context, "demo"), None);
}

#[test]
fn a_secret_without_an_item_is_an_error() {
    let context: Context<u32, u32> = Context::new();
    let empty = Secret {
        resource_version: None,
        data: None,
    };
    match context.admin_client_for("ns", "demo", "a:1", "demo-operator", Some(&empty)) {
        Err(error) => assert_eq!(
            error,
            "operator identity Secret ns/demo-operator has no data"
        ),
        Ok(_) => panic!("a Secret without data"),
    }
    let all = [
        ("ca.crt".to_owned(), vec![1]),
        ("user.crt".to_owned(), vec![2]),
        ("user.key".to_owned(), vec![3]),
    ];
    for missing in 0..3 {
        let mut data = all.to_vec();
        let (name, _) = data.remove(missing);
        match identity("ns", "s", &data) {
            Err(error) => assert_eq!(error, format!("operator identity Secret ns/s has no {name}")),
            Ok(_) => panic!("{name}"),
        }
    }
    match identity("ns", "s", &Vec::new()) {
        Err(error) => assert_eq!(error, "operator identity Secret ns/s has no ca.crt"),
        Ok(_) => panic!("no items"),
    }
    let data = secret(None).data.unwrap();
    match identity("ns", "s", &data) {
        Ok(identity) => {
            assert_eq!(identity.ca, &vec![1]);
            assert_eq!(identity.cert, &vec![2]);
            assert_eq!(identity.key, &vec![3]);
        }
        Err(error) => panic!("{error}"),
    }
    assert_eq!(
        secret_unreadable("ns", "s", "not found"),
        "operator identity Secret ns/s: not found"
    );
}

#[test]
fn a_rebalancer_client_is_built_once_until_it_is_dropped() {
    let mut context: Context<u32, u32> = Context::new();
    assert_eq!(context.rebalancer_client_for("http://a", || 1), &1);
    assert_eq!(context.rebalancer_client_for("http://a", || 2), &1);
    assert_eq!(context.rebalancer_client_for("http://b", || 3), &3);
    context.drop_rebalancer_client("http://a");
    assert_eq!(context.rebalancer_client_for("http://a", || 4), &4);
    context.insert_rebalancer_client_for_test("http://b", 5);
    assert_eq!(context.rebalancer_client_for("http://b", || 6), &5);
}

#[test]
fn a_definition_has_a_file_of_its_own() {
    for (plural, file) in [
        ("kafkas", "krabka.io_kafkas.yaml"),
        ("kafkanodepools", "krabka.io_kafkanodepools.yaml"),
        ("kafkatopics", "krabka.io_kafkatopics.yaml"),
        ("kafkausers", "krabka.io_kafkausers.yaml"),
        ("kafkarebalances", "krabka.io_kafkarebalances.yaml"),
        ("kafkagrpcgateways", "krabka.io_kafkagrpcgateways.yaml"),
        ("kafkaconnectors", "krabka.io_kafkaconnectors.yaml"),
        ("schemaregistries", "krabka.io_schemaregistries.yaml"),
    ] {
        assert_eq!(crd_file_name("krabka.io", plural), file);
    }
}
