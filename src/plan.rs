use vstd::prelude::*;
use crate::auth::{Auth, Credentials};
use crate::client_id::{fresh_client_id, is_hyphenated_uuid};
use crate::endpoint::{server_uri_of, Endpoint};
use crate::error::SenderError;
use crate::tls::TlsPolicy;
use crate::version::{MqttVersion, VersionConnectFields};

verus! {

/// Interval of the keep-alive signal, in seconds.
pub const KEEP_ALIVE_SECS: u64 = 30;

/// First delay before an automatic reconnect, in milliseconds.
pub const RECONNECT_MIN_RETRY_MS: u64 = 100;

/// Longest delay between automatic reconnects, in milliseconds.
pub const RECONNECT_MAX_RETRY_MS: u64 = 5000;

/// Where the client keeps message and session state: nowhere, so that nothing
/// leaks from one run into the next.
#[derive(Clone, Copy, Debug, PartialEq, Eq, Structural)]
pub enum Persistence {
    Disabled,
}

/// Everything the client object is created with.
#[derive(Clone, Debug)]
pub struct CreatePlan {
    pub server_uri: String,
    pub client_id: String,
    pub persistence: Persistence,
    /// Protocol level, fixed for the lifetime of the client.
    pub mqtt_version: u32,
}

/// Bounds of the backoff between automatic reconnects, which the transport runs itself.
#[derive(Clone, Copy, Debug, PartialEq, Eq, Structural)]
pub struct ReconnectPolicy {
    pub min_retry_ms: u64,
    pub max_retry_ms: u64,
}

/// Everything the connect request carries.
#[derive(Clone, Debug)]
pub struct ConnectPlan {
    pub server_cert_auth: bool,
    pub verify_hostname: bool,
    pub credentials: Option<Credentials>,
    pub keep_alive_secs: u64,
    pub reconnect: ReconnectPolicy,
    pub version_fields: VersionConnectFields,
}

/// A client to create and the request to connect it with.
#[derive(Clone, Debug)]
pub struct SessionPlan {
    pub create: CreatePlan,
    pub connect: ConnectPlan,
}

impl SessionPlan {
    /// The plan built from these inputs, whenever the authentication strategy is supported.
    pub open spec fn built_from(
        self,
        endpoint: Endpoint,
        credentials: Option<Credentials>,
        version: MqttVersion,
        client_id: Seq<char>,
        tls: TlsPolicy,
    ) -> bool {
        &&& self.create.server_uri@ == server_uri_of(endpoint.host@, endpoint.port)
        &&& self.create.client_id@ == client_id
        &&& self.create.persistence == Persistence::Disabled
        &&& self.create.mqtt_version == version.spec_protocol_level()
        &&& self.connect.server_cert_auth == !tls.insecure_skip_verification
        &&& self.connect.verify_hostname == !tls.insecure_skip_verification
        &&& self.connect.credentials == credentials
        &&& self.connect.keep_alive_secs == KEEP_ALIVE_SECS
        &&& self.connect.reconnect == ReconnectPolicy {
            min_retry_ms: RECONNECT_MIN_RETRY_MS,
            max_retry_ms: RECONNECT_MAX_RETRY_MS,
        }
        &&& self.connect.version_fields == version.spec_connect_fields()
    }
}

/// Builds the client and connect request for one session with an injected client identity.
/// A certificate strategy fails with `UnsupportedAuth` before anything else is built.
pub fn plan_session(
    endpoint: &Endpoint,
    auth: Auth,
    version: MqttVersion,
    client_id: String,
    tls: TlsPolicy,
) -> (r: Result<SessionPlan, SenderError>)
    ensures
        r is Err <==> auth is X509Certificate,
        r is Err ==> r == Err::<SessionPlan, SenderError>(SenderError::UnsupportedAuth),
        r matches Ok(p) ==> auth.spec_credentials() matches Ok(c) && p.built_from(
            *endpoint,
            c,
            version,
            client_id@,
            tls,
        ),
{
    let credentials = match auth.into_credentials() {
        Ok(c) => c,
        Err(e) => return Err(e),
    };
    let create = CreatePlan {
        server_uri: endpoint.server_uri(),
        client_id,
        persistence: Persistence::Disabled,
        mqtt_version: version.protocol_level(),
    };
    let connect = ConnectPlan {
        server_cert_auth: tls.server_cert_auth(),
        verify_hostname: tls.verify_hostname(),
        credentials,
        keep_alive_secs: KEEP_ALIVE_SECS,
        reconnect: ReconnectPolicy {
            min_retry_ms: RECONNECT_MIN_RETRY_MS,
            max_retry_ms: RECONNECT_MAX_RETRY_MS,
        },
        version_fields: version.connect_fields(),
    };
    Ok(SessionPlan { create, connect })
}

/// Builds the client and connect request for a new client, with a fresh random identity.
pub fn plan_new_session(
    endpoint: &Endpoint,
    auth: Auth,
    version: MqttVersion,
    tls: TlsPolicy,
) -> (r: Result<SessionPlan, SenderError>)
    ensures
        r is Err <==> auth is X509Certificate,
        r is Err ==> r == Err::<SessionPlan, SenderError>(SenderError::UnsupportedAuth),
        r matches Ok(p) ==> is_hyphenated_uuid(p.create.client_id@),
        r matches Ok(p) ==> (auth.spec_credentials() matches Ok(c) && p.built_from(
            *endpoint,
            c,
            version,
            p.create.client_id@,
            tls,
        )),
{
    if let Auth::X509Certificate(_) = auth {
        return Err(SenderError::UnsupportedAuth);
    }
    let client_id = fresh_client_id();
    plan_session(endpoint, auth, version, client_id, tls)
}

/// Two sessions planned for the same endpoint but with different protocol versions
/// reach the same broker, announce different protocol levels and send connect
/// requests of different shapes.
pub proof fn lemma_versions_have_distinct_handshakes(
    p1: SessionPlan,
    p2: SessionPlan,
    endpoint: Endpoint,
    credentials1: Option<Credentials>,
    credentials2: Option<Credentials>,
    v1: MqttVersion,
    v2: MqttVersion,
    client_id1: Seq<char>,
    client_id2: Seq<char>,
    tls1: TlsPolicy,
    tls2: TlsPolicy,
)
    requires
        p1.built_from(endpoint, credentials1, v1, client_id1, tls1),
        p2.built_from(endpoint, credentials2, v2, client_id2, tls2),
        (v1 is V3_1_1) != (v2 is V3_1_1),
    ensures
        p1.create.server_uri@ == p2.create.server_uri@,
        p1.create.mqtt_version != p2.create.mqtt_version,
        (p1.connect.version_fields is V3) != (p2.connect.version_fields is V3),
{
}

} // verus!
