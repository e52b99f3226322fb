//! The clients that the reconcilers share.
//!
//! An admin client belongs to a cluster, to the namespace and the bootstrap address
//! at which it was reached, and to the version of the Secret with the identity of
//! the operator. A client with a stale identity leaves the cache when a new one
//! takes its place. A rebalancer client belongs to an endpoint.

use crate::text;
use crate::text::{same, starts_with};
use vstd::prelude::*;
use vstd::string::*;

verus! {

/// The entries of a cache, as a map.
spec fn contents<H>(entries: Seq<(String, H)>) -> Map<Seq<char>, H> {
    Map::new(
        |key: Seq<char>| exists|i: int| 0 <= i < entries.len() && #[trigger] entries[i].0@ == key,
        |key: Seq<char>|
            entries[choose|i: int| 0 <= i < entries.len() && #[trigger] entries[i].0@ == key].1,
    )
}

/// Whether no key occurs twice.
spec fn distinct<H>(entries: Seq<(String, H)>) -> bool {
    forall|i: int, j: int|
        0 <= i < j < entries.len() ==> #[trigger] entries[i].0@ != #[trigger] entries[j].0@
}

proof fn lemma_entry<H>(entries: Seq<(String, H)>, i: int)
    requires
        distinct(entries),
        0 <= i < entries.len(),
    ensures
        contents(entries).dom().contains(entries[i].0@),
        contents(entries)[entries[i].0@] == entries[i].1,
{
    let key = entries[i].0@;
    let j = choose|j: int| 0 <= j < entries.len() && #[trigger] entries[j].0@ == key;
    assert(entries[i].0@ == key);
    assert(j == i);
}

proof fn lemma_remove<H>(entries: Seq<(String, H)>, i: int)
    requires
        distinct(entries),
        0 <= i < entries.len(),
    ensures
        distinct(entries.remove(i)),
        contents(entries.remove(i)) == contents(entries).remove(entries[i].0@),
{
    let after = entries.remove(i);
    assert forall|j: int| 0 <= j < after.len() implies #[trigger] after[j] == entries[if j < i {
        j
    } else {
        j + 1
    }] by {}
    assert(distinct(after));
    assert forall|key: Seq<char>| #[trigger] contents(after).dom().contains(key) <==> contents(
        entries,
    ).remove(entries[i].0@).dom().contains(key) by {
        if contents(after).dom().contains(key) {
            let j = choose|j: int| 0 <= j < after.len() && #[trigger] after[j].0@ == key;
            lemma_entry(entries, if j < i {
                j
            } else {
                j + 1
            });
        }
        if contents(entries).dom().contains(key) && key != entries[i].0@ {
            let j = choose|j: int| 0 <= j < entries.len() && #[trigger] entries[j].0@ == key;
            lemma_entry(after, if j < i {
                j
            } else {
                j - 1
            });
        }
    }
    assert forall|key: Seq<char>| #[trigger]
        contents(after).dom().contains(key) implies contents(after)[key] == contents(
        entries,
    )[key] by {
        let j = choose|j: int| 0 <= j < after.len() && #[trigger] after[j].0@ == key;
        lemma_entry(after, j);
        lemma_entry(entries, if j < i {
            j
        } else {
            j + 1
        });
    }
    assert(contents(after) =~= contents(entries).remove(entries[i].0@));
}

proof fn lemma_push<H>(entries: Seq<(String, H)>, entry: (String, H))
    requires
        distinct(entries),
        !contents(entries).dom().contains(entry.0@),
    ensures
        distinct(entries.push(entry)),
        contents(entries.push(entry)) == contents(entries).insert(entry.0@, entry.1),
{
    let after = entries.push(entry);
    assert forall|i: int| 0 <= i < entries.len() implies #[trigger] entries[i].0@ != entry.0@ by {
        lemma_entry(entries, i);
    }
    assert(distinct(after)) by {
        assert forall|i: int, j: int| 0 <= i < j < after.len() implies #[trigger] after[i].0@
            != #[trigger] after[j].0@ by {
            assert(after[i] == entries[i]);
            assert(entries[i].0@ != entry.0@);
            if j < entries.len() {
                assert(after[j] == entries[j]);
            }
        }
    }
    assert forall|key: Seq<char>| #[trigger] contents(after).dom().contains(key) <==> contents(
        entries,
    ).insert(entry.0@, entry.1).dom().contains(key) by {
        if contents(after).dom().contains(key) {
            let j = choose|j: int| 0 <= j < after.len() && #[trigger] after[j].0@ == key;
            if j < entries.len() {
                assert(after[j] == entries[j]);
                lemma_entry(entries, j);
            }
        }
        if contents(entries).dom().contains(key) {
            let j = choose|j: int| 0 <= j < entries.len() && #[trigger] entries[j].0@ == key;
            assert(after[j] == entries[j]);
            lemma_entry(after, j);
        }
        lemma_entry(after, entries.len() as int);
    }
    assert forall|key: Seq<char>| #[trigger] contents(after).dom().contains(key) implies contents(
        after,
    )[key] == contents(entries).insert(entry.0@, entry.1)[key] by {
        let j = choose|j: int| 0 <= j < after.len() && #[trigger] after[j].0@ == key;
        lemma_entry(after, j);
        if j < entries.len() {
            assert(after[j] == entries[j]);
            lemma_entry(entries, j);
            assert(entries[j].0@ != entry.0@);
        }
    }
    assert(contents(after) =~= contents(entries).insert(entry.0@, entry.1));
}

/// The keys that leave a cache together.
pub enum Scope<'a> {
    /// The key itself.
    Key(&'a str),
    /// Every key that begins with this.
    Prefix(&'a str),
    /// The key of a cluster, and every key that belongs to the cluster.
    Cluster(&'a str),
}

/// The separator between the parts of a key.
pub const SEPARATOR: char = '\0';

/// What every key of a cluster begins with.
pub open spec fn cluster_prefix(cluster: Seq<char>) -> Seq<char> {
    cluster.push(SEPARATOR)
}

/// What every key of an address of a cluster begins with.
pub open spec fn address_prefix(
    cluster: Seq<char>,
    namespace: Seq<char>,
    bootstrap: Seq<char>,
) -> Seq<char> {
    (cluster_prefix(cluster) + namespace).push(SEPARATOR).add(bootstrap).push(SEPARATOR)
}

impl<'a> Scope<'a> {
    pub open spec fn covers(self, key: Seq<char>) -> bool {
        match self {
            Scope::Key(k) => key == k@,
            Scope::Prefix(prefix) => text::begins_with(key, prefix@),
            Scope::Cluster(cluster) => key == cluster@ || text::begins_with(
                key,
                cluster_prefix(cluster@),
            ),
        }
    }

    fn has(&self, key: &str) -> (r: bool)
        ensures
            r == self.covers(key@),
    {
        match self {
            Scope::Key(k) => same(key, k),
            Scope::Prefix(prefix) => starts_with(key, prefix),
            Scope::Cluster(cluster) => {
                let mut prefix = (*cluster).to_owned();
                prefix.push(SEPARATOR);
                same(key, cluster) || starts_with(key, prefix.as_str())
            },
        }
    }
}

/// A cache of clients.
pub struct ClientCache<H> {
    entries: Vec<(String, H)>,
}

impl<H> View for ClientCache<H> {
    type V = Map<Seq<char>, H>;

    closed spec fn view(&self) -> Map<Seq<char>, H> {
        contents(self.entries@)
    }
}

impl<H> ClientCache<H> {
    #[verifier::type_invariant]
    closed spec fn well_formed(self) -> bool {
        distinct(self.entries@)
    }

    pub fn new() -> (r: Self)
        ensures
            r@ == Map::<Seq<char>, H>::empty(),
    {
        let r = ClientCache { entries: Vec::new() };
        assert(r@ =~= Map::<Seq<char>, H>::empty());
        r
    }

    /// The client for `key`, if there is one.
    pub fn get(&self, key: &str) -> (r: Option<&H>)
        ensures
            match r {
                Some(client) => self@.dom().contains(key@) && *client == self@[key@],
                None => !self@.dom().contains(key@),
            },
    {
        proof {
            use_type_invariant(self);
        }
        let mut i: usize = 0;
        while i < self.entries.len()
            invariant
                i <= self.entries@.len(),
                distinct(self.entries@),
                forall|j: int| 0 <= j < i ==> #[trigger] self.entries@[j].0@ != key@,
            decreases self.entries@.len() - i,
        {
            if same(self.entries[i].0.as_str(), key) {
                proof {
                    lemma_entry(self.entries@, i as int);
                }
                return Some(&self.entries[i].1);
            }
            i = i + 1;
        }
        None
    }

    /// Drop every client that `scope` covers.
    pub fn evict(&mut self, scope: &Scope)
        ensures
            final(self)@ == old(self)@.remove_keys(Set::new(|key: Seq<char>| scope.covers(key))),
    {
        proof {
            use_type_invariant(&*self);
        }
        let ghost covered = Set::new(|key: Seq<char>| scope.covers(key));
        let ghost before = self.entries@;
        let mut entries: Vec<(String, H)> = Vec::new();
        std::mem::swap(&mut entries, &mut self.entries);
        let mut i: usize = 0;
        while i < entries.len()
            invariant
                i <= entries@.len(),
                distinct(entries@),
                covered == Set::new(|key: Seq<char>| scope.covers(key)),
                contents(entries@).remove_keys(covered) == contents(before).remove_keys(covered),
                forall|j: int| 0 <= j < i ==> !scope.covers(#[trigger] entries@[j].0@),
            decreases entries@.len() - i,
        {
            if scope.has(entries[i].0.as_str()) {
                let ghost whole = entries@;
                proof {
                    lemma_remove(whole, i as int);
                    let key = whole[i as int].0@;
                    assert(contents(whole).remove(key).remove_keys(covered) =~= contents(
                        whole,
                    ).remove_keys(covered));
                }
                entries.remove(i);
                assert forall|j: int| 0 <= j < i implies !scope.covers(
                    #[trigger] entries@[j].0@,
                ) by {
                    assert(entries@[j] == whole[j]);
                }
            } else {
                i = i + 1;
            }
        }
        assert forall|key: Seq<char>| #[trigger]
            contents(entries@).dom().contains(key) implies !covered.contains(key) by {
            let j = choose|j: int| 0 <= j < entries@.len() && #[trigger] entries@[j].0@ == key;
            assert(!scope.covers(entries@[j].0@));
        }
        assert(contents(entries@) =~= contents(entries@).remove_keys(covered));
        self.entries = entries;
    }

    /// Put `client` in the place of the client for `key`, if any.
    pub fn insert(&mut self, key: String, client: H)
        ensures
            final(self)@ == old(self)@.insert(key@, client),
    {
        let ghost before = self@;
        let ghost k = key@;
        self.remove(key.as_str());
        proof {
            use_type_invariant(&*self);
            lemma_push(self.entries@, (key, client));
            assert(before.remove(k).insert(k, client) =~= before.insert(k, client));
        }
        let mut entries: Vec<(String, H)> = Vec::new();
        std::mem::swap(&mut entries, &mut self.entries);
        entries.push((key, client));
        self.entries = entries;
    }

    /// Drop the client for `key`, if any.
    pub fn remove(&mut self, key: &str)
        ensures
            final(self)@ == old(self)@.remove(key@),
    {
        let ghost before = self@;
        self.evict(&Scope::Key(key));
        assert(self@ =~= before.remove(key@));
    }
}

/// What the operator reads of a Secret.
#[derive(Debug, Clone, PartialEq, Eq)]
pub struct Secret {
    pub resource_version: Option<String>,
    pub data: Option<Vec<(String, Vec<u8>)>>,
}

impl Secret {
    /// The version of the Secret, or `unknown`.
    pub open spec fn version(self) -> Seq<char> {
        match self.resource_version {
            Some(version) => version@,
            None => "unknown"@,
        }
    }
}

/// The key of an admin client.
pub open spec fn admin_key(
    cluster: Seq<char>,
    namespace: Seq<char>,
    bootstrap: Seq<char>,
    version: Seq<char>,
) -> Seq<char> {
    address_prefix(cluster, namespace, bootstrap) + version
}

/// A connection to be made for an admin client.
#[derive(Debug, Clone, PartialEq, Eq)]
pub struct Connection {
    /// What the keys of the clients begin with that the new one replaces.
    pub prefix: String,
    /// The key of the new client.
    pub key: String,
    /// The name that the certificate of the server must have.
    pub server_name: String,
}

impl Connection {
    /// Whether this is the connection to a cluster at an address, with an identity
    /// of a version.
    pub open spec fn reaches(
        self,
        cluster: Seq<char>,
        namespace: Seq<char>,
        bootstrap: Seq<char>,
        version: Seq<char>,
    ) -> bool {
        &&& self.prefix@ == address_prefix(cluster, namespace, bootstrap)
        &&& self.key@ == admin_key(cluster, namespace, bootstrap, version)
        &&& self.server_name@ == cluster + "-broker-headless."@ + namespace
            + ".svc.cluster.local"@
    }
}

/// Where an admin client comes from.
pub enum AdminSource<'a, 's, A> {
    /// There is one.
    Cached(&'a A),
    /// The Secret with the identity of the operator has to be read first.
    ReadSecret,
    /// One has to be connected with this identity.
    Connect(Connection, Identity<'s>),
}

/// The identity of the operator: the certificate of the authority, and its own
/// certificate and key.
pub struct Identity<'a> {
    pub ca: &'a Vec<u8>,
    pub cert: &'a Vec<u8>,
    pub key: &'a Vec<u8>,
}

/// The first item with the name `name`.
pub open spec fn item(data: Seq<(String, Vec<u8>)>, name: Seq<char>) -> Option<Vec<u8>>
    decreases data.len(),
{
    if data.len() == 0 {
        None
    } else if data[0].0@ == name {
        Some(data[0].1)
    } else {
        item(data.drop_first(), name)
    }
}

/// How the errors on the Secret with the identity of the operator begin.
pub open spec fn secret_label(namespace: Seq<char>, secret_name: Seq<char>) -> Seq<char> {
    "operator identity Secret "@ + namespace + "/"@ + secret_name
}

fn label_secret(namespace: &str, secret_name: &str) -> (r: String)
    ensures
        r@ == secret_label(namespace@, secret_name@),
{
    let mut label = String::from_str("operator identity Secret ");
    label.append(namespace);
    label.append("/");
    label.append(secret_name);
    label
}

/// The error for a Secret that cannot be read.
pub fn secret_unreadable(namespace: &str, secret_name: &str, error: &str) -> (r: String)
    ensures
        r@ == secret_label(namespace@, secret_name@) + ": "@ + error@,
{
    let mut message = label_secret(namespace, secret_name);
    message.append(": ");
    message.append(error);
    message
}

fn lookup<'a>(
    namespace: &str,
    secret_name: &str,
    data: &'a Vec<(String, Vec<u8>)>,
    name: &str,
) -> (r: Result<&'a Vec<u8>, String>)
    ensures
        match r {
            Ok(bytes) => item(data@, name@) == Some(*bytes),
            Err(message) => item(data@, name@) is None && message@ == secret_label(
                namespace@,
                secret_name@,
            ) + " has no "@ + name@,
        },
{
    let mut i: usize = 0;
    assert(data@.skip(0) =~= data@);
    while i < data.len()
        invariant
            i <= data@.len(),
            item(data@, name@) == item(data@.skip(i as int), name@),
        decreases data@.len() - i,
    {
        assert(data@.skip(i as int)[0] == data@[i as int]);
        assert(data@.skip(i as int).drop_first() =~= data@.skip(i + 1));
        if same(data[i].0.as_str(), name) {
            return Ok(&data[i].1);
        }
        i = i + 1;
    }
    let mut message = label_secret(namespace, secret_name);
    message.append(" has no ");
    message.append(name);
    Err(message)
}

/// The error for the first item that the identity of the operator lacks.
pub open spec fn identity_error(
    namespace: Seq<char>,
    secret_name: Seq<char>,
    data: Seq<(String, Vec<u8>)>,
) -> Option<Seq<char>> {
    let missing = secret_label(namespace, secret_name) + " has no "@;
    if item(data, "ca.crt"@) is None {
        Some(missing + "ca.crt"@)
    } else if item(data, "user.crt"@) is None {
        Some(missing + "user.crt"@)
    } else if item(data, "user.key"@) is None {
        Some(missing + "user.key"@)
    } else {
        None
    }
}

/// The error for a Secret that lacks the identity of the operator, or a part of it.
pub open spec fn secret_error(
    namespace: Seq<char>,
    secret_name: Seq<char>,
    secret: Secret,
) -> Option<Seq<char>> {
    match secret.data {
        None => Some(secret_label(namespace, secret_name) + " has no data"@),
        Some(data) => identity_error(namespace, secret_name, data@),
    }
}

impl<'a> Identity<'a> {
    /// Whether the parts are those of `data`.
    pub open spec fn comes_from(self, data: Seq<(String, Vec<u8>)>) -> bool {
        &&& item(data, "ca.crt"@) == Some(*self.ca)
        &&& item(data, "user.crt"@) == Some(*self.cert)
        &&& item(data, "user.key"@) == Some(*self.key)
    }
}

/// The identity of the operator in the data of its Secret.
pub fn identity<'a>(
    namespace: &str,
    secret_name: &str,
    data: &'a Vec<(String, Vec<u8>)>,
) -> (r: Result<Identity<'a>, String>)
    ensures
        match r {
            Ok(identity) => identity_error(namespace@, secret_name@, data@) is None
                && identity.comes_from(data@),
            Err(message) => identity_error(namespace@, secret_name@, data@) == Some(message@),
        },
{
    let ca = match lookup(namespace, secret_name, data, "ca.crt") {
        Ok(bytes) => bytes,
        Err(message) => {
            return Err(message);
        },
    };
    let cert = match lookup(namespace, secret_name, data, "user.crt") {
        Ok(bytes) => bytes,
        Err(message) => {
            return Err(message);
        },
    };
    let key = match lookup(namespace, secret_name, data, "user.key") {
        Ok(bytes) => bytes,
        Err(message) => {
            return Err(message);
        },
    };
    Ok(Identity { ca, cert, key })
}

/// The clients after one was connected: those with the prefix of the new one leave.
pub open spec fn with_connection<A>(
    clients: Map<Seq<char>, A>,
    prefix: Seq<char>,
    key: Seq<char>,
    client: A,
) -> Map<Seq<char>, A> {
    clients.remove_keys(Set::new(|k: Seq<char>| text::begins_with(k, prefix))).insert(key, client)
}

/// The clients without those of a cluster.
pub open spec fn without_cluster<A>(clients: Map<Seq<char>, A>, cluster: Seq<char>) -> Map<
    Seq<char>,
    A,
> {
    clients.remove_keys(
        Set::new(
            |k: Seq<char>| k == cluster || text::begins_with(k, cluster_prefix(cluster)),
        ),
    )
}

/// The clients that the reconcilers share: admin clients `A` and rebalancer clients
/// `R`.
pub struct Context<A, R> {
    /// Per-cluster-and-endpoint admin-client cache.
    pub admin_clients: ClientCache<A>,
    /// Per-endpoint rebalancer-client cache, keyed by the base URL.
    pub rebalancer_clients: ClientCache<R>,
}

impl<A, R> Context<A, R> {
    #[must_use]
    pub fn new() -> (r: Self)
        ensures
            r.admin_clients@ == Map::<Seq<char>, A>::empty(),
            r.rebalancer_clients@ == Map::<Seq<char>, R>::empty(),
    {
        Context { admin_clients: ClientCache::new(), rebalancer_clients: ClientCache::new() }
    }

    /// The admin client for `cluster` at `bootstrap`, by what was read so far of the
    /// Secret with the identity of the operator.
    ///
    /// Before the Secret is read, a client that stands for the cluster at every address
    /// is the one. Without it, the Secret has to be read. With the Secret, the client
    /// with its version is the one, or else the client for the cluster, or else the
    /// connection to make. A Secret that lacks the identity is an error, where a
    /// connection has to be made.
    pub fn admin_client_for<'a, 's>(
        &'a self,
        namespace: &str,
        cluster: &str,
        bootstrap: &str,
        secret_name: &str,
        secret: Option<&'s Secret>,
    ) -> (r: Result<AdminSource<'a, 's, A>, String>)
        ensures
            match secret {
                None => if self.admin_clients@.dom().contains(cluster@) {
                    r matches Ok(AdminSource::Cached(client)) && *client
                        == self.admin_clients@[cluster@]
                } else {
                    r matches Ok(AdminSource::ReadSecret)
                },
                Some(secret) => {
                    let key = admin_key(cluster@, namespace@, bootstrap@, secret.version());
                    if self.admin_clients@.dom().contains(key) {
                        r matches Ok(AdminSource::Cached(client)) && *client
                            == self.admin_clients@[key]
                    } else if self.admin_clients@.dom().contains(cluster@) {
                        r matches Ok(AdminSource::Cached(client)) && *client
                            == self.admin_clients@[cluster@]
                    } else {
                        match secret_error(namespace@, secret_name@, *secret) {
                            Some(error) => r matches Err(message) && message@ == error,
                            None => r matches Ok(AdminSource::Connect(connection, identity))
                                && connection.reaches(
                                cluster@,
                                namespace@,
                                bootstrap@,
                                secret.version(),
                            ) && identity.comes_from(secret.data->0@),
                        }
                    }
                },
            },
    {
        let secret = match secret {
            None => {
                return match self.admin_clients.get(cluster) {
                    Some(client) => Ok(AdminSource::Cached(client)),
                    None => Ok(AdminSource::ReadSecret),
                };
            },
            Some(secret) => secret,
        };
        let mut prefix = cluster.to_owned();
        prefix.push(SEPARATOR);
        prefix.append(namespace);
        prefix.push(SEPARATOR);
        prefix.append(bootstrap);
        prefix.push(SEPARATOR);
        let mut key = prefix.clone();
        match &secret.resource_version {
            Some(version) => key.append(version.as_str()),
            None => key.append("unknown"),
        }
        if let Some(client) = self.admin_clients.get(key.as_str()) {
            return Ok(AdminSource::Cached(client));
        }
        if let Some(client) = self.admin_clients.get(cluster) {
            return Ok(AdminSource::Cached(client));
        }
        let data = match &secret.data {
            Some(data) => data,
            None => {
                let mut message = label_secret(namespace, secret_name);
                message.append(" has no data");
                return Err(message);
            },
        };
        let identity = match identity(namespace, secret_name, data) {
            Ok(identity) => identity,
            Err(message) => {
                return Err(message);
            },
        };
        let mut server_name = cluster.to_owned();
        server_name.append("-broker-headless.");
        server_name.append(namespace);
        server_name.append(".svc.cluster.local");
        Ok(AdminSource::Connect(Connection { prefix, key, server_name }, identity))
    }

    /// Cache the client that was connected for `connection`. It takes the place of
    /// every client at the same address with another identity.
    pub fn connected(&mut self, connection: Connection, client: A)
        ensures
            final(self).admin_clients@ == with_connection(
                old(self).admin_clients@,
                connection.prefix@,
                connection.key@,
                client,
            ),
            final(self).rebalancer_clients@ == old(self).rebalancer_clients@,
    {
        let scope = Scope::Prefix(connection.prefix.as_str());
        assert(Set::new(|key: Seq<char>| scope.covers(key)) =~= Set::new(
            |key: Seq<char>| text::begins_with(key, connection.prefix@),
        ));
        self.admin_clients.evict(&scope);
        self.admin_clients.insert(connection.key, client);
    }

    /// Drops the cached admin clients for `cluster`. The next use opens a new
    /// connection.
    pub fn drop_admin_client(&mut self, cluster: &str)
        ensures
            final(self).admin_clients@ == without_cluster(old(self).admin_clients@, cluster@),
            final(self).rebalancer_clients@ == old(self).rebalancer_clients@,
    {
        let scope = Scope::Cluster(cluster);
        assert(Set::new(|key: Seq<char>| scope.covers(key)) =~= Set::new(
            |key: Seq<char>| key == cluster@ || text::begins_with(key, cluster_prefix(cluster@)),
        ));
        self.admin_clients.evict(&scope);
    }

    /// Fills the admin-client cache with a handle from the caller, which stands for
    /// `cluster` at every address.
    pub fn insert_admin_client_for_test(&mut self, cluster: &str, admin: A)
        ensures
            final(self).admin_clients@ == old(self).admin_clients@.insert(cluster@, admin),
            final(self).rebalancer_clients@ == old(self).rebalancer_clients@,
    {
        self.admin_clients.insert(cluster.to_owned(), admin);
    }

    /// Looks up a rebalancer client for `endpoint`, or builds one.
    pub fn rebalancer_client_for<F: FnOnce() -> R>(&mut self, endpoint: &str, build: F) -> (r: &R)
        requires
            build.requires(()),
        ensures
            final(self).admin_clients@ == old(self).admin_clients@,
            old(self).rebalancer_clients@.dom().contains(endpoint@) ==> {
                &&& *r == old(self).rebalancer_clients@[endpoint@]
                &&& final(self).rebalancer_clients@ == old(self).rebalancer_clients@
            },
            !old(self).rebalancer_clients@.dom().contains(endpoint@) ==> {
                &&& build.ensures((), *r)
                &&& final(self).rebalancer_clients@ == old(self).rebalancer_clients@.insert(
                    endpoint@,
                    *r,
                )
            },
    {
        if self.rebalancer_clients.get(endpoint).is_none() {
            let client = build();
            self.rebalancer_clients.insert(endpoint.to_owned(), client);
        }
        self.rebalancer_clients.get(endpoint).unwrap()
    }

    /// Drops the cached rebalancer client for `endpoint`. The next use builds the
    /// client again.
    pub fn drop_rebalancer_client(&mut self, endpoint: &str)
        ensures
            final(self).rebalancer_clients@ == old(self).rebalancer_clients@.remove(endpoint@),
            final(self).admin_clients@ == old(self).admin_clients@,
    {
        self.rebalancer_clients.remove(endpoint);
    }

    /// Fills the rebalancer-client cache with a handle from the caller.
    pub fn insert_rebalancer_client_for_test(&mut self, endpoint: &str, client: R)
        ensures
            final(self).rebalancer_clients@ == old(self).rebalancer_clients@.insert(
                endpoint@,
                client,
            ),
            final(self).admin_clients@ == old(self).admin_clients@,
    {
        self.rebalancer_clients.insert(endpoint.to_owned(), client);
    }
}

/// Whether a part of a key is free of the separator, as every name in Kubernetes
/// and every address is.
pub open spec fn plain(part: Seq<char>) -> bool {
    !part.contains(SEPARATOR)
}

proof fn lemma_first_part(a: Seq<char>, x: Seq<char>, b: Seq<char>, y: Seq<char>)
    requires
        plain(a),
        plain(b),
        text::begins_with(a.push(SEPARATOR) + x, b.push(SEPARATOR) + y),
    ensures
        a == b,
        text::begins_with(x, y),
{
    let s = a.push(SEPARATOR) + x;
    let p = b.push(SEPARATOR) + y;
    assert forall|i: int| 0 <= i < p.len() implies #[trigger] s[i] == p[i] by {
        assert(s.take(p.len() as int)[i] == p[i]);
    }
    if a.len() < b.len() {
        assert(s[a.len() as int] == p[a.len() as int]);
        assert(b.contains(b[a.len() as int]));
    }
    if b.len() < a.len() {
        assert(s[b.len() as int] == p[b.len() as int]);
        assert(a.contains(a[b.len() as int]));
    }
    assert forall|i: int| 0 <= i < a.len() implies a[i] == b[i] by {
        assert(s[i] == p[i]);
    }
    assert(a =~= b);
    assert forall|i: int| 0 <= i < y.len() implies x[i] == y[i] by {
        assert(s[a.len() + 1 + i] == p[a.len() + 1 + i]);
    }
    assert(x.take(y.len() as int) =~= y);
}

proof fn lemma_address(
    cluster: Seq<char>,
    namespace: Seq<char>,
    bootstrap: Seq<char>,
    version: Seq<char>,
)
    ensures
        address_prefix(cluster, namespace, bootstrap) == cluster.push(SEPARATOR) + (namespace.push(
            SEPARATOR,
        ) + (bootstrap.push(SEPARATOR) + Seq::empty())),
        admin_key(cluster, namespace, bootstrap, version) == cluster.push(SEPARATOR) + (
        namespace.push(SEPARATOR) + (bootstrap.push(SEPARATOR) + version)),
{
    assert(address_prefix(cluster, namespace, bootstrap) =~= cluster.push(SEPARATOR) + (
    namespace.push(SEPARATOR) + (bootstrap.push(SEPARATOR) + Seq::empty())));
    assert(admin_key(cluster, namespace, bootstrap, version) =~= cluster.push(SEPARATOR) + (
    namespace.push(SEPARATOR) + (bootstrap.push(SEPARATOR) + version)));
}

/// The key of an admin client tells its cluster, its address and its version.
pub proof fn lemma_keys_tell_clients_apart(
    cluster1: Seq<char>,
    namespace1: Seq<char>,
    bootstrap1: Seq<char>,
    version1: Seq<char>,
    cluster2: Seq<char>,
    namespace2: Seq<char>,
    bootstrap2: Seq<char>,
    version2: Seq<char>,
)
    requires
        plain(cluster1),
        plain(namespace1),
        plain(bootstrap1),
        plain(cluster2),
        plain(namespace2),
        plain(bootstrap2),
        admin_key(cluster1, namespace1, bootstrap1, version1) == admin_key(
            cluster2,
            namespace2,
            bootstrap2,
            version2,
        ),
    ensures
        cluster1 == cluster2,
        namespace1 == namespace2,
        bootstrap1 == bootstrap2,
        version1 == version2,
{
    let key = admin_key(cluster1, namespace1, bootstrap1, version1);
    assert(key.take(key.len() as int) =~= key);
    lemma_address(cluster1, namespace1, bootstrap1, version1);
    lemma_address(cluster2, namespace2, bootstrap2, version2);
    let (x2, y2) = (
        bootstrap1.push(SEPARATOR) + version1,
        bootstrap2.push(SEPARATOR) + version2,
    );
    let (x1, y1) = (namespace1.push(SEPARATOR) + x2, namespace2.push(SEPARATOR) + y2);
    lemma_first_part(cluster1, x1, cluster2, y1);
    lemma_first_part(namespace1, x2, namespace2, y2);
    lemma_first_part(bootstrap1, version1, bootstrap2, version2);
    assert(version1.len() == version2.len());
    assert(version1.take(version2.len() as int) =~= version1);
}

proof fn lemma_prefix_tells_addresses_apart(
    cluster1: Seq<char>,
    namespace1: Seq<char>,
    bootstrap1: Seq<char>,
    version1: Seq<char>,
    cluster2: Seq<char>,
    namespace2: Seq<char>,
    bootstrap2: Seq<char>,
)
    requires
        plain(cluster1),
        plain(namespace1),
        plain(bootstrap1),
        plain(cluster2),
        plain(namespace2),
        plain(bootstrap2),
        text::begins_with(
            admin_key(cluster1, namespace1, bootstrap1, version1),
            address_prefix(cluster2, namespace2, bootstrap2),
        ),
    ensures
        cluster1 == cluster2,
        namespace1 == namespace2,
        bootstrap1 == bootstrap2,
{
    lemma_address(cluster1, namespace1, bootstrap1, version1);
    lemma_address(cluster2, namespace2, bootstrap2, Seq::empty());
    let (x2, y2) = (
        bootstrap1.push(SEPARATOR) + version1,
        bootstrap2.push(SEPARATOR) + Seq::empty(),
    );
    let (x1, y1) = (namespace1.push(SEPARATOR) + x2, namespace2.push(SEPARATOR) + y2);
    lemma_first_part(cluster1, x1, cluster2, y1);
    lemma_first_part(namespace1, x2, namespace2, y2);
    lemma_first_part(bootstrap1, version1, bootstrap2, Seq::empty());
}

/// The client that was connected is in the cache, and the clients at the same
/// address with another version of the identity are gone.
pub proof fn lemma_new_identity_replaces_the_old<A>(
    clients: Map<Seq<char>, A>,
    cluster: Seq<char>,
    namespace: Seq<char>,
    bootstrap: Seq<char>,
    version: Seq<char>,
    client: A,
    other: Seq<char>,
)
    ensures
        ({
            let after = with_connection(
                clients,
                address_prefix(cluster, namespace, bootstrap),
                admin_key(cluster, namespace, bootstrap, version),
                client,
            );
            &&& after.dom().contains(admin_key(cluster, namespace, bootstrap, version))
            &&& after[admin_key(cluster, namespace, bootstrap, version)] == client
            &&& other != version ==> !after.dom().contains(
                admin_key(cluster, namespace, bootstrap, other),
            )
        }),
{
    let prefix = address_prefix(cluster, namespace, bootstrap);
    let stale = prefix + other;
    assert(stale.take(prefix.len() as int) =~= prefix);
    if stale == prefix + version {
        assert(other.len() == version.len()) by {
            assert(stale.len() == prefix.len() + other.len());
            assert((prefix + version).len() == prefix.len() + version.len());
        }
        assert forall|i: int| 0 <= i < other.len() implies other[i] == version[i] by {
            assert(stale[prefix.len() + i] == other[i]);
            assert((prefix + version)[prefix.len() + i] == version[i]);
        }
        assert(other =~= version);
    }
}

/// A new connection leaves the clients of every other cluster and of every other
/// address as they are.
pub proof fn lemma_other_clients_stay<A>(
    clients: Map<Seq<char>, A>,
    cluster: Seq<char>,
    namespace: Seq<char>,
    bootstrap: Seq<char>,
    version: Seq<char>,
    client: A,
    cluster2: Seq<char>,
    namespace2: Seq<char>,
    bootstrap2: Seq<char>,
    version2: Seq<char>,
)
    requires
        plain(cluster),
        plain(namespace),
        plain(bootstrap),
        plain(cluster2),
        plain(namespace2),
        plain(bootstrap2),
        !(cluster == cluster2 && namespace == namespace2 && bootstrap == bootstrap2),
    ensures
        ({
            let key2 = admin_key(cluster2, namespace2, bootstrap2, version2);
            let after = with_connection(
                clients,
                address_prefix(cluster, namespace, bootstrap),
                admin_key(cluster, namespace, bootstrap, version),
                client,
            );
            &&& after.dom().contains(key2) <==> clients.dom().contains(key2)
            &&& clients.dom().contains(key2) ==> after[key2] == clients[key2]
        }),
{
    let key = admin_key(cluster, namespace, bootstrap, version);
    let key2 = admin_key(cluster2, namespace2, bootstrap2, version2);
    if key == key2 {
        lemma_keys_tell_clients_apart(
            cluster,
            namespace,
            bootstrap,
            version,
            cluster2,
            namespace2,
            bootstrap2,
            version2,
        );
    }
    if text::begins_with(key2, address_prefix(cluster, namespace, bootstrap)) {
        lemma_prefix_tells_addresses_apart(
            cluster2,
            namespace2,
            bootstrap2,
            version2,
            cluster,
            namespace,
            bootstrap,
        );
    }
}

/// Once the clients of a cluster are dropped, there is none left for it, at no
/// address and with no version.
pub proof fn lemma_dropped_cluster_has_no_client<A>(
    clients: Map<Seq<char>, A>,
    cluster: Seq<char>,
    namespace: Seq<char>,
    bootstrap: Seq<char>,
    version: Seq<char>,
)
    ensures
        !without_cluster(clients, cluster).dom().contains(cluster),
        !without_cluster(clients, cluster).dom().contains(
            admin_key(cluster, namespace, bootstrap, version),
        ),
{
    let key = admin_key(cluster, namespace, bootstrap, version);
    let prefix = cluster_prefix(cluster);
    assert(key.take(prefix.len() as int) =~= prefix);
}

/// Dropping the clients of a cluster leaves the clients of every other cluster.
pub proof fn lemma_other_clusters_stay<A>(
    clients: Map<Seq<char>, A>,
    cluster: Seq<char>,
    cluster2: Seq<char>,
    namespace2: Seq<char>,
    bootstrap2: Seq<char>,
    version2: Seq<char>,
)
    requires
        plain(cluster),
        plain(cluster2),
        cluster != cluster2,
    ensures
        ({
            let after = without_cluster(clients, cluster);
            let key2 = admin_key(cluster2, namespace2, bootstrap2, version2);
            &&& after.dom().contains(cluster2) <==> clients.dom().contains(cluster2)
            &&& clients.dom().contains(cluster2) ==> after[cluster2] == clients[cluster2]
            &&& after.dom().contains(key2) <==> clients.dom().contains(key2)
            &&& clients.dom().contains(key2) ==> after[key2] == clients[key2]
        }),
{
    let prefix = cluster_prefix(cluster);
    let key2 = admin_key(cluster2, namespace2, bootstrap2, version2);
    lemma_address(cluster2, namespace2, bootstrap2, version2);
    if text::begins_with(key2, prefix) {
        assert(prefix =~= cluster.push(SEPARATOR) + Seq::empty());
        lemma_first_part(
            cluster2,
            namespace2.push(SEPARATOR) + (bootstrap2.push(SEPARATOR) + version2),
            cluster,
            Seq::empty(),
        );
    }
    if key2 == cluster {
        assert(key2[cluster2.len() as int] == SEPARATOR);
        assert(cluster.contains(SEPARATOR));
    }
    if text::begins_with(cluster2, prefix) {
        assert(cluster2.take(prefix.len() as int)[cluster.len() as int] == SEPARATOR);
        assert(cluster2.contains(SEPARATOR));
    }
}

/// The first item with a name, in the order of the items.
pub proof fn lemma_item(data: Seq<(String, Vec<u8>)>, name: Seq<char>)
    ensures
        item(data, name) is None <==> forall|i: int|
            0 <= i < data.len() ==> (#[trigger] data[i]).0@ != name,
        item(data, name) matches Some(bytes) ==> exists|i: int|
            0 <= i < data.len() && (#[trigger] data[i]).0@ == name && data[i].1 == bytes && (
            forall|j: int| 0 <= j < i ==> (#[trigger] data[j]).0@ != name),
    decreases data.len(),
{
    if data.len() > 0 {
        let rest = data.drop_first();
        assert forall|i: int| 0 <= i < rest.len() implies #[trigger] rest[i] == data[i + 1] by {}
        lemma_item(rest, name);
        if data[0].0@ != name {
            if item(rest, name) is None {
                assert forall|i: int| 0 <= i < data.len() implies (
                #[trigger] data[i]).0@ != name by {
                    if i > 0 {
                        assert(rest[i - 1] == data[i]);
                    }
                }
            } else {
                let k = choose|k: int|
                    0 <= k < rest.len() && (#[trigger] rest[k]).0@ == name && rest[k].1 == item(
                        rest,
                        name,
                    )->0 && (forall|j: int| 0 <= j < k ==> (#[trigger] rest[j]).0@ != name);
                assert(data[k + 1].0@ == name);
                assert forall|j: int| 0 <= j < k + 1 implies (#[trigger] data[j]).0@ != name by {
                    if j > 0 {
                        assert(rest[j - 1] == data[j]);
                    }
                }
            }
        }
    }
}

/// Whether `bytes` stand under `name` in `data`, as the first with that name.
pub open spec fn stands(data: Seq<(String, Vec<u8>)>, name: Seq<char>, bytes: Vec<u8>) -> bool {
    exists|i: int|
        0 <= i < data.len() && (#[trigger] data[i]).0@ == name && data[i].1 == bytes && (forall|
            j: int,
        |
            0 <= j < i ==> (#[trigger] data[j]).0@ != name)
}

/// Whether nothing stands under `name` in `data`.
pub open spec fn lacks(data: Seq<(String, Vec<u8>)>, name: Seq<char>) -> bool {
    forall|i: int| 0 <= i < data.len() ==> (#[trigger] data[i]).0@ != name
}

/// The identity of the operator is what stands in the data under the names of its three
/// parts. It is refused exactly where one of them is missing, and the error names the
/// Secret and the first that is missing.
pub proof fn lemma_identity(
    namespace: &str,
    secret_name: &str,
    data: Vec<(String, Vec<u8>)>,
    r: Result<Identity<'_>, String>,
)
    requires
        call_ensures(identity, (namespace, secret_name, &data), r),
    ensures
        r is Err <==> lacks(data@, "ca.crt"@) || lacks(data@, "user.crt"@) || lacks(
            data@,
            "user.key"@,
        ),
        r matches Ok(identity) ==> {
            &&& stands(data@, "ca.crt"@, *identity.ca)
            &&& stands(data@, "user.crt"@, *identity.cert)
            &&& stands(data@, "user.key"@, *identity.key)
        },
        r matches Err(message) ==> message@ == "operator identity Secret "@ + namespace@ + "/"@
            + secret_name@ + " has no "@ + (if lacks(data@, "ca.crt"@) {
            "ca.crt"@
        } else if lacks(data@, "user.crt"@) {
            "user.crt"@
        } else {
            "user.key"@
        }),
{
    lemma_item(data@, "ca.crt"@);
    lemma_item(data@, "user.crt"@);
    lemma_item(data@, "user.key"@);
}

/// Before the Secret is read, a client that stands for the whole cluster is handed out,
/// and otherwise the Secret is asked for. The address and the namespace play no part.
pub proof fn lemma_client_before_the_secret<A, R>(
    context: Context<A, R>,
    namespace: &str,
    cluster: &str,
    bootstrap: &str,
    secret_name: &str,
    r: Result<AdminSource<'_, '_, A>, String>,
)
    requires
        call_ensures(
            Context::<A, R>::admin_client_for,
            (&context, namespace, cluster, bootstrap, secret_name, None),
            r,
        ),
    ensures
        context.admin_clients@.dom().contains(cluster@) <==> (r matches Ok(
            AdminSource::Cached(client),
        ) && *client == context.admin_clients@[cluster@]),
        !context.admin_clients@.dom().contains(cluster@) <==> (r matches Ok(
            AdminSource::ReadSecret,
        )),
{
}

/// With the Secret, the client for the address and the version of the Secret comes
/// first, and the client that stands for the whole cluster comes second. Neither needs
/// an identity. Without both, a connection is made with the identity in the Secret, and
/// to the server of that cluster in that namespace.
pub proof fn lemma_client_with_the_secret<A, R>(
    context: Context<A, R>,
    namespace: &str,
    cluster: &str,
    bootstrap: &str,
    secret_name: &str,
    secret: Secret,
    r: Result<AdminSource<'_, '_, A>, String>,
)
    requires
        call_ensures(
            Context::<A, R>::admin_client_for,
            (&context, namespace, cluster, bootstrap, secret_name, Some(&secret)),
            r,
        ),
    ensures
        ({
            let clients = context.admin_clients@;
            let version = match secret.resource_version {
                Some(version) => version@,
                None => "unknown"@,
            };
            let key = cluster@ + seq!['\0'] + namespace@ + seq!['\0'] + bootstrap@ + seq!['\0']
                + version;
            let cached = clients.dom().contains(key) || clients.dom().contains(cluster@);
            let complete = secret.data matches Some(data) && !lacks(data@, "ca.crt"@) && !lacks(
                data@,
                "user.crt"@,
            ) && !lacks(data@, "user.key"@);
            &&& clients.dom().contains(key) ==> (r matches Ok(AdminSource::Cached(client))
                && *client == clients[key])
            &&& !clients.dom().contains(key) && clients.dom().contains(cluster@) ==> (
            r matches Ok(AdminSource::Cached(client)) && *client == clients[cluster@])
            &&& r is Err <==> !cached && !complete
            &&& (r matches Ok(AdminSource::Connect(_, _))) <==> !cached && complete
            &&& r matches Ok(AdminSource::Connect(connection, identity)) ==> {
                &&& connection.key@ == key
                &&& connection.prefix@ == cluster@ + seq!['\0'] + namespace@ + seq!['\0']
                    + bootstrap@ + seq!['\0']
                &&& connection.server_name@ == cluster@ + "-broker-headless."@ + namespace@
                    + ".svc.cluster.local"@
                &&& stands(secret.data->0@, "ca.crt"@, *identity.ca)
                &&& stands(secret.data->0@, "user.crt"@, *identity.cert)
                &&& stands(secret.data->0@, "user.key"@, *identity.key)
            }
            &&& r matches Err(message) ==> text::begins_with(
                message@,
                "operator identity Secret "@ + namespace@ + "/"@ + secret_name@ + " has no "@,
            )
            &&& r matches Err(message) ==> (secret.data is None <==> message@
                == "operator identity Secret "@ + namespace@ + "/"@ + secret_name@
                + " has no data"@)
        }),
{
    let version = secret.version();
    let key = cluster@ + seq!['\0'] + namespace@ + seq!['\0'] + bootstrap@ + seq!['\0'] + version;
    let prefix = cluster@ + seq!['\0'] + namespace@ + seq!['\0'] + bootstrap@ + seq!['\0'];
    assert(admin_key(cluster@, namespace@, bootstrap@, version) =~= key);
    assert(address_prefix(cluster@, namespace@, bootstrap@) =~= prefix);
    if let Some(data) = secret.data {
        lemma_item(data@, "ca.crt"@);
        lemma_item(data@, "user.crt"@);
        lemma_item(data@, "user.key"@);
    }
    if let Err(message) = r {
        let label = secret_label(namespace@, secret_name@);
        let start = label + " has no "@;
        reveal_strlit(" has no ");
        reveal_strlit(" has no data");
        reveal_strlit("ca.crt");
        reveal_strlit("user.crt");
        reveal_strlit("user.key");
        assert(message@.take(start.len() as int) =~= start);
        let none = label + " has no data"@;
        if secret.data is Some {
            assert(message@.len() != none.len());
        }
    }
}

/// The client that was connected for a Secret is the one for that Secret from then on,
/// for the same cluster and address.
pub proof fn lemma_connected_client_is_found<A, R>(
    before: Context<A, R>,
    after: Context<A, R>,
    namespace: &str,
    cluster: &str,
    bootstrap: &str,
    secret_name: &str,
    secret: Secret,
    connection: Connection,
    parts: Identity<'_>,
    client: A,
    r: Result<AdminSource<'_, '_, A>, String>,
)
    requires
        call_ensures(
            Context::<A, R>::admin_client_for,
            (&before, namespace, cluster, bootstrap, secret_name, Some(&secret)),
            Ok(AdminSource::Connect(connection, parts)),
        ),
        after.admin_clients@ == with_connection(
            before.admin_clients@,
            connection.prefix@,
            connection.key@,
            client,
        ),
        call_ensures(
            Context::<A, R>::admin_client_for,
            (&after, namespace, cluster, bootstrap, secret_name, Some(&secret)),
            r,
        ),
    ensures
        r matches Ok(AdminSource::Cached(found)) && *found == client,
{
}

/// Once the clients of a cluster are dropped, none of them is handed out any more: the
/// Secret is read, and a connection is made.
pub proof fn lemma_dropped_client_is_not_found<A, R>(
    before: Context<A, R>,
    after: Context<A, R>,
    namespace: &str,
    cluster: &str,
    bootstrap: &str,
    secret_name: &str,
    secret: Option<&Secret>,
    r: Result<AdminSource<'_, '_, A>, String>,
)
    requires
        after.admin_clients@ == without_cluster(before.admin_clients@, cluster@),
        call_ensures(
            Context::<A, R>::admin_client_for,
            (&after, namespace, cluster, bootstrap, secret_name, secret),
            r,
        ),
    ensures
        !(r matches Ok(AdminSource::Cached(_))),
        secret is None ==> (r matches Ok(AdminSource::ReadSecret)),
{
    if let Some(secret) = secret {
        lemma_dropped_cluster_has_no_client(
            before.admin_clients@,
            cluster@,
            namespace@,
            bootstrap@,
            secret.version(),
        );
    }
    lemma_dropped_cluster_has_no_client(
        before.admin_clients@,
        cluster@,
        namespace@,
        bootstrap@,
        Seq::empty(),
    );
}

/// A Secret that cannot be read is named, and the error of the request ends the message.
pub proof fn lemma_unreadable_secret(namespace: &str, secret_name: &str, error: &str, r: String)
    requires
        call_ensures(secret_unreadable, (namespace, secret_name, error), r),
    ensures
        text::begins_with(
            r@,
            "operator identity Secret "@ + namespace@ + "/"@ + secret_name@ + ": "@,
        ),
        text::ends_with(r@, error@),
{
    let start = "operator identity Secret "@ + namespace@ + "/"@ + secret_name@ + ": "@;
    assert(r@.take(start.len() as int) =~= start);
    assert(r@.skip(r@.len() - error@.len()) =~= error@);
}

} // verus!
