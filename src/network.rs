//! Connection configuration, messages, connections, and the registry that
//! owns every open connection.

use vstd::prelude::*;
use vstd::utf8::{encode_utf8, decode_utf8, valid_utf8};
use crate::error::{CoreBaseError, CoreBaseResult, ErrorKind, ErrorView, outcome, status_outcome,
    status_result};
use crate::keyed::{keys_unique, pairs_map, lemma_pairs_map_dom, lemma_pairs_map_get,
    lemma_pairs_map_push, lemma_pairs_map_update, lemma_pairs_map_remove, lemma_pairs_map_len};
use crate::strmap::StringMap;
use crate::text::{has_nul, nul_error_message, check_c_string};

verus! {

/// The protocols a connection can speak.
#[derive(Debug, Clone, Copy, PartialEq, Eq, Hash, Structural)]
pub enum NetworkProtocol {
    TCP,
    UDP,
    HTTP,
    HTTPS,
    WebSocket,
    MQTT,
    AMQP,
    GRPC,
    Custom,
}

impl NetworkProtocol {
    /// The numeric code of this protocol on the native interface.
    pub open spec fn spec_code(self) -> i32 {
        match self {
            NetworkProtocol::TCP => 0,
            NetworkProtocol::UDP => 1,
            NetworkProtocol::HTTP => 2,
            NetworkProtocol::HTTPS => 3,
            NetworkProtocol::WebSocket => 4,
            NetworkProtocol::MQTT => 5,
            NetworkProtocol::AMQP => 6,
            NetworkProtocol::GRPC => 7,
            NetworkProtocol::Custom => 8,
        }
    }

    /// The protocol a native code stands for; an unknown code reads as TCP.
    pub open spec fn spec_from_code(code: i32) -> NetworkProtocol {
        if code == 1 {
            NetworkProtocol::UDP
        } else if code == 2 {
            NetworkProtocol::HTTP
        } else if code == 3 {
            NetworkProtocol::HTTPS
        } else if code == 4 {
            NetworkProtocol::WebSocket
        } else if code == 5 {
            NetworkProtocol::MQTT
        } else if code == 6 {
            NetworkProtocol::AMQP
        } else if code == 7 {
            NetworkProtocol::GRPC
        } else if code == 8 {
            NetworkProtocol::Custom
        } else {
            NetworkProtocol::TCP
        }
    }

    /// The numeric code of this protocol on the native interface.
    pub fn code(self) -> (r: i32)
        ensures
            r == self.spec_code(),
    {
        match self {
            NetworkProtocol::TCP => 0,
            NetworkProtocol::UDP => 1,
            NetworkProtocol::HTTP => 2,
            NetworkProtocol::HTTPS => 3,
            NetworkProtocol::WebSocket => 4,
            NetworkProtocol::MQTT => 5,
            NetworkProtocol::AMQP => 6,
            NetworkProtocol::GRPC => 7,
            NetworkProtocol::Custom => 8,
        }
    }

    /// The protocol a native code stands for; an unknown code reads as TCP.
    pub fn from_code(code: i32) -> (r: NetworkProtocol)
        ensures
            r == NetworkProtocol::spec_from_code(code),
    {
        if code == 1 {
            NetworkProtocol::UDP
        } else if code == 2 {
            NetworkProtocol::HTTP
        } else if code == 3 {
            NetworkProtocol::HTTPS
        } else if code == 4 {
            NetworkProtocol::WebSocket
        } else if code == 5 {
            NetworkProtocol::MQTT
        } else if code == 6 {
            NetworkProtocol::AMQP
        } else if code == 7 {
            NetworkProtocol::GRPC
        } else if code == 8 {
            NetworkProtocol::Custom
        } else {
            NetworkProtocol::TCP
        }
    }
}

impl From<i32> for NetworkProtocol {
    fn from(value: i32) -> NetworkProtocol {
        NetworkProtocol::from_code(value)
    }
}

impl vstd::std_specs::convert::FromSpecImpl<i32> for NetworkProtocol {
    open spec fn obeys_from_spec() -> bool {
        true
    }

    open spec fn from_spec(v: i32) -> NetworkProtocol {
        NetworkProtocol::spec_from_code(v)
    }
}

impl From<NetworkProtocol> for i32 {
    fn from(protocol: NetworkProtocol) -> i32 {
        protocol.code()
    }
}

impl vstd::std_specs::convert::FromSpecImpl<NetworkProtocol> for i32 {
    open spec fn obeys_from_spec() -> bool {
        true
    }

    open spec fn from_spec(v: NetworkProtocol) -> i32 {
        v.spec_code()
    }
}

/// The lifecycle state of a connection.
#[derive(Debug, Clone, Copy, PartialEq, Eq, Structural)]
pub enum ConnectionState {
    Disconnected,
    Connecting,
    Connected,
    Disconnecting,
    Error,
}

/// An optional string as a value.
pub open spec fn opt_view(o: Option<String>) -> Option<Seq<char>> {
    match o {
        Some(s) => Some(s@),
        None => None,
    }
}

fn clone_opt(o: &Option<String>) -> (r: Option<String>)
    ensures
        opt_view(r) == opt_view(*o),
{
    match o {
        Some(s) => Some(s.clone()),
        None => None,
    }
}

/// A connection configuration as a value.
pub struct NetworkConfigView {
    pub host: Seq<char>,
    pub port: u16,
    pub protocol: NetworkProtocol,
    pub timeout_ms: u32,
    pub max_retries: u32,
    pub retry_delay_ms: u32,
    pub use_ssl: bool,
    pub verify_ssl: bool,
    pub username: Option<Seq<char>>,
    pub password: Option<Seq<char>>,
    pub headers: Map<Seq<char>, Seq<char>>,
    pub custom_params: Map<Seq<char>, Seq<char>>,
}

/// How to reach a peer and how to talk to it. The builder methods return a
/// modified copy and leave shared instances alone.
#[derive(Debug)]
pub struct NetworkConfig {
    pub host: String,
    pub port: u16,
    pub protocol: NetworkProtocol,
    pub timeout_ms: u32,
    pub max_retries: u32,
    pub retry_delay_ms: u32,
    pub use_ssl: bool,
    pub verify_ssl: bool,
    pub username: Option<String>,
    pub password: Option<String>,
    pub headers: StringMap,
    pub custom_params: StringMap,
}

impl View for NetworkConfig {
    type V = NetworkConfigView;

    open spec fn view(&self) -> NetworkConfigView {
        NetworkConfigView {
            host: self.host@,
            port: self.port,
            protocol: self.protocol,
            timeout_ms: self.timeout_ms,
            max_retries: self.max_retries,
            retry_delay_ms: self.retry_delay_ms,
            use_ssl: self.use_ssl,
            verify_ssl: self.verify_ssl,
            username: opt_view(self.username),
            password: opt_view(self.password),
            headers: self.headers@,
            custom_params: self.custom_params@,
        }
    }
}

/// The configuration every preset starts from: localhost:8080 over TCP,
/// 5000 ms timeout, 3 retries 1000 ms apart, TLS off but verified when on,
/// no credentials, headers or parameters.
pub open spec fn default_config_view() -> NetworkConfigView {
    NetworkConfigView {
        host: "localhost"@,
        port: 8080,
        protocol: NetworkProtocol::TCP,
        timeout_ms: 5000,
        max_retries: 3,
        retry_delay_ms: 1000,
        use_ssl: false,
        verify_ssl: true,
        username: None,
        password: None,
        headers: Map::empty(),
        custom_params: Map::empty(),
    }
}

/// The default configuration aimed at `host:port` over `protocol`.
pub open spec fn preset_view(host: Seq<char>, port: u16, protocol: NetworkProtocol, use_ssl: bool) -> NetworkConfigView {
    NetworkConfigView { host, port, protocol, use_ssl, ..default_config_view() }
}

impl Default for NetworkConfig {
    fn default() -> (r: NetworkConfig)
        ensures
            r@ == default_config_view(),
    {
        NetworkConfig {
            host: String::from_str("localhost"),
            port: 8080,
            protocol: NetworkProtocol::TCP,
            timeout_ms: 5000,
            max_retries: 3,
            retry_delay_ms: 1000,
            use_ssl: false,
            verify_ssl: true,
            username: None,
            password: None,
            headers: StringMap::new(),
            custom_params: StringMap::new(),
        }
    }
}

impl Clone for NetworkConfig {
    fn clone(&self) -> (r: NetworkConfig)
        ensures
            r@ == self@,
    {
        NetworkConfig {
            host: self.host.clone(),
            port: self.port,
            protocol: self.protocol,
            timeout_ms: self.timeout_ms,
            max_retries: self.max_retries,
            retry_delay_ms: self.retry_delay_ms,
            use_ssl: self.use_ssl,
            verify_ssl: self.verify_ssl,
            username: clone_opt(&self.username),
            password: clone_opt(&self.password),
            headers: self.headers.clone(),
            custom_params: self.custom_params.clone(),
        }
    }
}

impl NetworkConfig {
    fn preset(host: &str, port: u16, protocol: NetworkProtocol, use_ssl: bool) -> (r: NetworkConfig)
        ensures
            r@ == preset_view(host@, port, protocol, use_ssl),
    {
        let mut config = NetworkConfig::default();
        config.host = String::from_str(host);
        config.port = port;
        config.protocol = protocol;
        config.use_ssl = use_ssl;
        config
    }

    /// The default configuration aimed at `host:port` over TCP.
    pub fn tcp(host: &str, port: u16) -> (r: NetworkConfig)
        ensures
            r@ == preset_view(host@, port, NetworkProtocol::TCP, false),
    {
        NetworkConfig::preset(host, port, NetworkProtocol::TCP, false)
    }

    /// The default configuration aimed at `host:port` over UDP.
    pub fn udp(host: &str, port: u16) -> (r: NetworkConfig)
        ensures
            r@ == preset_view(host@, port, NetworkProtocol::UDP, false),
    {
        NetworkConfig::preset(host, port, NetworkProtocol::UDP, false)
    }

    /// The default configuration aimed at `host:port` over HTTP.
    pub fn http(host: &str, port: u16) -> (r: NetworkConfig)
        ensures
            r@ == preset_view(host@, port, NetworkProtocol::HTTP, false),
    {
        NetworkConfig::preset(host, port, NetworkProtocol::HTTP, false)
    }

    /// The default configuration aimed at `host:port` over HTTPS, with TLS
    /// on.
    pub fn https(host: &str, port: u16) -> (r: NetworkConfig)
        ensures
            r@ == preset_view(host@, port, NetworkProtocol::HTTPS, true),
    {
        NetworkConfig::preset(host, port, NetworkProtocol::HTTPS, true)
    }

    /// This configuration with a timeout of `timeout_ms` milliseconds, kept
    /// in 32 bits (the count wraps past `u32::MAX`).
    pub fn with_timeout(self, timeout_ms: u64) -> (r: NetworkConfig)
        ensures
            r@ == (NetworkConfigView {
                timeout_ms: (timeout_ms % 0x1_0000_0000) as u32,
                ..self@
            }),
    {
        let mut config = self;
        config.timeout_ms = (timeout_ms % 0x1_0000_0000) as u32;
        config
    }

    /// This configuration with the given credentials.
    pub fn with_auth(self, username: &str, password: &str) -> (r: NetworkConfig)
        ensures
            r@ == (NetworkConfigView {
                username: Some(username@),
                password: Some(password@),
                ..self@
            }),
    {
        let mut config = self;
        config.username = Some(String::from_str(username));
        config.password = Some(String::from_str(password));
        config
    }

    /// This configuration with header `key` set to `value`.
    pub fn with_header(self, key: &str, value: &str) -> (r: NetworkConfig)
        ensures
            r@ == (NetworkConfigView { headers: self@.headers.insert(key@, value@), ..self@ }),
    {
        let mut config = self;
        config.headers.insert(String::from_str(key), String::from_str(value));
        config
    }

    /// This configuration with custom parameter `key` set to `value`.
    pub fn with_param(self, key: &str, value: &str) -> (r: NetworkConfig)
        ensures
            r@ == (NetworkConfigView {
                custom_params: self@.custom_params.insert(key@, value@),
                ..self@
            }),
    {
        let mut config = self;
        config.custom_params.insert(String::from_str(key), String::from_str(value));
        config
    }
}

/// What the native layer's description of an invalid UTF-8 sequence says;
/// it depends on the bytes alone.
pub uninterp spec fn utf8_error_text(bytes: Seq<u8>) -> Seq<char>;

/// Relies on `String::from_utf8`: it succeeds exactly on valid UTF-8, with
/// the text the bytes encode, and otherwise reports an error whose text
/// depends on the bytes alone.
#[verifier::external_body]
fn decode_text(bytes: &Vec<u8>) -> (r: Result<String, String>)
    ensures
        match r {
            Ok(s) => valid_utf8(bytes@) && s@ == decode_utf8(bytes@),
            Err(e) => !valid_utf8(bytes@) && e@ == utf8_error_text(bytes@),
        },
{
    match String::from_utf8(bytes.clone()) {
        Ok(s) => Ok(s),
        Err(e) => Err(e.to_string()),
    }
}

/// Relies on `SystemTime::now`: the current time in whole seconds since the
/// Unix epoch (0 if the clock is set before it). Nothing is promised of its
/// value.
#[verifier::external_body]
fn unix_time_now() -> u64 {
    std::time::SystemTime::now().duration_since(std::time::UNIX_EPOCH).unwrap_or_default().as_secs()
}

/// A message as a value.
pub struct NetworkMessageView {
    pub data: Seq<u8>,
    pub topic: Option<Seq<char>>,
    pub headers: Map<Seq<char>, Seq<char>>,
    pub timestamp: u64,
    pub sender: Option<Seq<char>>,
}

/// A payload with optional routing metadata, stamped with the second it was
/// made.
#[derive(Debug)]
pub struct NetworkMessage {
    pub data: Vec<u8>,
    pub topic: Option<String>,
    pub headers: StringMap,
    pub timestamp: u64,
    pub sender: Option<String>,
}

impl View for NetworkMessage {
    type V = NetworkMessageView;

    open spec fn view(&self) -> NetworkMessageView {
        NetworkMessageView {
            data: self.data@,
            topic: opt_view(self.topic),
            headers: self.headers@,
            timestamp: self.timestamp,
            sender: opt_view(self.sender),
        }
    }
}

/// Detail message of the error for a payload that is not valid UTF-8, when
/// read as text.
pub open spec fn invalid_utf8_message(data: Seq<u8>) -> Seq<char> {
    "Invalid UTF-8: "@ + utf8_error_text(data)
}

/// A message carrying `data` and nothing else, stamped at `timestamp`.
pub open spec fn bare_message(data: Seq<u8>, timestamp: u64) -> NetworkMessageView {
    NetworkMessageView { data, topic: None, headers: Map::empty(), timestamp, sender: None }
}

/// `m` with its topic set to `topic`.
pub open spec fn spec_with_topic(m: NetworkMessageView, topic: Seq<char>) -> NetworkMessageView {
    NetworkMessageView { topic: Some(topic), ..m }
}

/// `m` with header `key` set to `value`.
pub open spec fn spec_with_header(m: NetworkMessageView, key: Seq<char>, value: Seq<char>) -> NetworkMessageView {
    NetworkMessageView { headers: m.headers.insert(key, value), ..m }
}

/// `m` with its sender set to `sender`.
pub open spec fn spec_with_sender(m: NetworkMessageView, sender: Seq<char>) -> NetworkMessageView {
    NetworkMessageView { sender: Some(sender), ..m }
}

impl Clone for NetworkMessage {
    fn clone(&self) -> (r: NetworkMessage)
        ensures
            r@ == self@,
    {
        NetworkMessage {
            data: self.data.clone(),
            topic: clone_opt(&self.topic),
            headers: self.headers.clone(),
            timestamp: self.timestamp,
            sender: clone_opt(&self.sender),
        }
    }
}

impl NetworkMessage {
    /// A message whose payload is the UTF-8 encoding of `data`, stamped now.
    pub fn new_text(data: &str) -> (r: NetworkMessage)
        ensures
            r@ == bare_message(encode_utf8(data@), r.timestamp),
    {
        let bytes = vstd::slice::slice_to_vec(data.as_bytes());
        NetworkMessage::new_binary(bytes)
    }

    /// A message whose payload is `data`, stamped now.
    pub fn new_binary(data: Vec<u8>) -> (r: NetworkMessage)
        ensures
            r@ == bare_message(data@, r.timestamp),
    {
        let timestamp = unix_time_now();
        NetworkMessage::at_time(data, timestamp)
    }

    /// A message whose payload is `data`, stamped at `timestamp`.
    pub fn at_time(data: Vec<u8>, timestamp: u64) -> (r: NetworkMessage)
        ensures
            r@ == bare_message(data@, timestamp),
    {
        NetworkMessage { data, topic: None, headers: StringMap::new(), timestamp, sender: None }
    }

    /// The payload read as UTF-8 text; `NetworkError` when it is not valid
    /// UTF-8.
    pub fn as_text(&self) -> (r: CoreBaseResult<String>)
        ensures
            match r {
                Ok(s) => valid_utf8(self.data@) && s@ == decode_utf8(self.data@),
                Err(e) => !valid_utf8(self.data@) && e@ == (
                    ErrorKind::NetworkError,
                    invalid_utf8_message(self.data@),
                ),
            },
    {
        match decode_text(&self.data) {
            Ok(s) => Ok(s),
            Err(e) => {
                let mut detail = String::from_str("Invalid UTF-8: ");
                detail.append(e.as_str());
                Err(CoreBaseError::NetworkError(detail))
            },
        }
    }

    /// The payload.
    pub fn as_bytes(&self) -> (r: &[u8])
        ensures
            r@ == self.data@,
    {
        self.data.as_slice()
    }

    /// This message with its topic set to `topic`.
    pub fn with_topic(self, topic: &str) -> (r: NetworkMessage)
        ensures
            r@ == spec_with_topic(self@, topic@),
    {
        let mut message = self;
        message.topic = Some(String::from_str(topic));
        message
    }

    /// This message with header `key` set to `value`.
    pub fn with_header(self, key: &str, value: &str) -> (r: NetworkMessage)
        ensures
            r@ == spec_with_header(self@, key@, value@),
    {
        let mut message = self;
        message.headers.insert(String::from_str(key), String::from_str(value));
        message
    }

    /// This message with its sender set to `sender`.
    pub fn with_sender(self, sender: &str) -> (r: NetworkMessage)
        ensures
            r@ == spec_with_sender(self@, sender@),
    {
        let mut message = self;
        message.sender = Some(String::from_str(sender));
        message
    }
}

/// Setting a message's topic, one header and its sender gives the same
/// message whichever order the three builders run in, and that message
/// keeps the payload and holds exactly what was set.
pub proof fn lemma_builder_order(
    m: NetworkMessageView,
    topic: Seq<char>,
    key: Seq<char>,
    value: Seq<char>,
    sender: Seq<char>,
)
    ensures
        ({
            let built = spec_with_sender(spec_with_header(spec_with_topic(m, topic), key, value), sender);
            &&& built.data == m.data
            &&& built.topic == Some(topic)
            &&& built.headers == m.headers.insert(key, value)
            &&& built.sender == Some(sender)
            &&& built.timestamp == m.timestamp
            &&& spec_with_header(spec_with_sender(spec_with_topic(m, topic), sender), key, value)
                == built
            &&& spec_with_sender(spec_with_topic(spec_with_header(m, key, value), topic), sender)
                == built
            &&& spec_with_topic(spec_with_sender(spec_with_header(m, key, value), sender), topic)
                == built
            &&& spec_with_header(spec_with_topic(spec_with_sender(m, sender), topic), key, value)
                == built
            &&& spec_with_topic(spec_with_header(spec_with_sender(m, sender), key, value), topic)
                == built
        }),
{
}


/// A connection as a value.
pub struct ConnectionView {
    pub id: Seq<char>,
    pub config: NetworkConfigView,
    pub state: ConnectionState,
}

/// A logical channel opened by the native transport. A handle is a copy:
/// its `state` is not updated by the registry it came from.
#[derive(Debug)]
pub struct NetworkConnection {
    pub id: String,
    pub config: NetworkConfig,
    pub state: ConnectionState,
}

impl View for NetworkConnection {
    type V = ConnectionView;

    open spec fn view(&self) -> ConnectionView {
        ConnectionView { id: self.id@, config: self.config@, state: self.state }
    }
}

impl Clone for NetworkConnection {
    fn clone(&self) -> (r: NetworkConnection)
        ensures
            r@ == self@,
    {
        NetworkConnection { id: self.id.clone(), config: self.config.clone(), state: self.state }
    }
}

/// Detail message of the error for a payload that is not valid UTF-8, when
/// sent.
pub open spec fn invalid_data_message(data: Seq<u8>) -> Seq<char> {
    "Invalid message data: "@ + utf8_error_text(data)
}

/// Detail message of the error for a send the transport refused.
pub open spec fn send_failed_message() -> Seq<char> {
    "Failed to send message"@
}

/// Detail message of the error for a receive the transport refused.
pub open spec fn receive_failed_message() -> Seq<char> {
    "Failed to receive message"@
}

/// Detail message of the error for a close the transport refused.
pub open spec fn close_failed_message() -> Seq<char> {
    "Failed to close connection"@
}

/// The text the transport is handed to send `m` over `c`: the payload
/// must be UTF-8, and neither the text nor the connection id may hold a
/// NUL.
pub open spec fn spec_send_text(c: ConnectionView, m: NetworkMessageView) -> Result<Seq<char>, ErrorView> {
    if !valid_utf8(m.data) {
        Err((ErrorKind::NetworkError, invalid_data_message(m.data)))
    } else if has_nul(c.id) {
        Err((ErrorKind::InvalidString, nul_error_message()))
    } else if has_nul(decode_utf8(m.data)) {
        Err((ErrorKind::InvalidString, nul_error_message()))
    } else {
        Ok(decode_utf8(m.data))
    }
}

/// Whether `data` is what precedes the first NUL of `buffer` (all of it if
/// there is none).
pub open spec fn payload_of(buffer: Seq<u8>, data: Seq<u8>) -> bool {
    &&& data.len() <= buffer.len()
    &&& data == buffer.subrange(0, data.len() as int)
    &&& forall|j: int| 0 <= j < data.len() ==> data[j] != 0u8
    &&& (data.len() == buffer.len() || buffer[data.len() as int] == 0u8)
}

/// The bytes of `buffer` before its first NUL (all of them if there is
/// none).
pub fn payload_before_nul(buffer: &[u8]) -> (r: Vec<u8>)
    ensures
        payload_of(buffer@, r@),
{
    let mut data: Vec<u8> = Vec::new();
    let mut i: usize = 0;
    while i < buffer.len() && buffer[i] != 0u8
        invariant
            i <= buffer@.len(),
            data@ == buffer@.subrange(0, i as int),
            forall|j: int| 0 <= j < i ==> buffer@[j] != 0u8,
        decreases buffer@.len() - i,
    {
        data.push(buffer[i]);
        i = i + 1;
        assert(data@ =~= buffer@.subrange(0, i as int));
    }
    data
}

impl NetworkConnection {
    /// The text to hand to the transport's send for `message` over this
    /// connection, or the check that fails.
    pub fn send_text(&self, message: &NetworkMessage) -> (r: CoreBaseResult<String>)
        ensures
            match r {
                Ok(t) => spec_send_text(self@, message@) == Ok::<Seq<char>, ErrorView>(t@),
                Err(e) => spec_send_text(self@, message@) == Err::<Seq<char>, ErrorView>(e@),
            },
    {
        match decode_text(&message.data) {
            Err(e) => {
                let mut detail = String::from_str("Invalid message data: ");
                detail.append(e.as_str());
                Err(CoreBaseError::NetworkError(detail))
            },
            Ok(text) => {
                match check_c_string(self.id.as_str()) {
                    Err(e) => Err(e),
                    Ok(()) => match check_c_string(text.as_str()) {
                        Err(e) => Err(e),
                        Ok(()) => Ok(text),
                    },
                }
            },
        }
    }

    /// What a send returns once the transport answered `status` (0 is
    /// success).
    pub fn send_outcome(status: i32) -> (r: CoreBaseResult<()>)
        ensures
            outcome(r) == status_outcome(status, ErrorKind::NetworkError, send_failed_message()),
    {
        status_result(status, ErrorKind::NetworkError, "Failed to send message")
    }

    /// What a receive returns once the transport answered `status` (0 is
    /// success) and filled `buffer`: a message carrying the bytes before
    /// the buffer's first NUL, with no topic, headers or sender, stamped
    /// now.
    pub fn receive_outcome(status: i32, buffer: &[u8]) -> (r: CoreBaseResult<NetworkMessage>)
        ensures
            match r {
                Ok(m) => status == 0 && payload_of(buffer@, m.data@) && m@ == bare_message(
                    m.data@,
                    m.timestamp,
                ),
                Err(e) => status != 0 && e@ == (ErrorKind::NetworkError, receive_failed_message()),
            },
    {
        if status != 0 {
            return Err(CoreBaseError::NetworkError(String::from_str("Failed to receive message")));
        }
        let data = payload_before_nul(buffer);
        Ok(NetworkMessage::new_binary(data))
    }

    /// What a close returns once the transport answered `status` (0 is
    /// success).
    pub fn close_outcome(status: i32) -> (r: CoreBaseResult<()>)
        ensures
            outcome(r) == status_outcome(status, ErrorKind::NetworkError, close_failed_message()),
    {
        status_result(status, ErrorKind::NetworkError, "Failed to close connection")
    }
}

/// The connections of a registry, keyed by id.
pub open spec fn keyed(conns: Seq<ConnectionView>) -> Seq<(Seq<char>, ConnectionView)> {
    conns.map_values(|c: ConnectionView| (c.id, c))
}

/// A registry as a value: whether it is initialized, and its connections
/// in the order it lists them.
pub struct RegistryView {
    pub initialized: bool,
    pub connections: Seq<ConnectionView>,
}

impl RegistryView {
    /// No two connections share an id.
    pub open spec fn wf(self) -> bool {
        keys_unique(keyed(self.connections))
    }

    /// The connections by id.
    pub open spec fn map(self) -> Map<Seq<char>, ConnectionView> {
        pairs_map(keyed(self.connections))
    }
}

/// Detail message of the error for an id the registry does not hold.
pub open spec fn not_found_message(id: Seq<char>) -> Seq<char> {
    "Connection not found: "@ + id
}

/// Detail message of the error returned when the registry is used before it
/// is initialized.
pub open spec fn manager_not_initialized_message() -> Seq<char> {
    "NetworkManager not initialized"@
}

/// Detail message of the error for a connection the transport could not
/// open.
pub open spec fn create_failed_message() -> Seq<char> {
    "Failed to create network connection"@
}

/// The connection registered under `id`, or `ResourceNotFound`.
pub open spec fn spec_get(m: RegistryView, id: Seq<char>) -> Result<ConnectionView, ErrorView> {
    if m.map().contains_key(id) {
        Ok(m.map()[id])
    } else {
        Err((ErrorKind::ResourceNotFound, not_found_message(id)))
    }
}

/// The checks before the transport is asked to open a connection for
/// `config`.
pub open spec fn spec_create_check(m: RegistryView, config: NetworkConfigView) -> Result<(), ErrorView> {
    if !m.initialized {
        Err((ErrorKind::OperationFailed, manager_not_initialized_message()))
    } else if has_nul(config.host) {
        Err((ErrorKind::InvalidString, nul_error_message()))
    } else {
        Ok(())
    }
}

/// What creating a connection for `config` returns, given the id the
/// transport gave it (`None` when the transport failed).
pub open spec fn spec_create(m: RegistryView, config: NetworkConfigView, created: Option<Seq<char>>) -> Result<
    ConnectionView,
    ErrorView,
> {
    match spec_create_check(m, config) {
        Err(e) => Err(e),
        Ok(()) => match created {
            None => Err((ErrorKind::NetworkError, create_failed_message())),
            Some(id) => Ok(ConnectionView { id, config, state: ConnectionState::Connected }),
        },
    }
}

/// How the registry changes with `result`, the outcome of an operation that
/// registers its connection on success: on success that connection is
/// stored under its id, on failure nothing changes.
pub open spec fn registers(before: RegistryView, after: RegistryView, result: Result<ConnectionView, ErrorView>) -> bool {
    match result {
        Ok(c) => after.wf() && after.initialized == before.initialized && after.map()
            == before.map().insert(c.id, c),
        Err(_) => after == before,
    }
}

/// How the registry changes with `result`, the outcome of closing `id`:
/// on success the connection is removed, on failure nothing changes.
pub open spec fn deregisters(before: RegistryView, after: RegistryView, id: Seq<char>, result: Result<(), ErrorView>) -> bool {
    match result {
        Ok(()) => after.wf() && after.initialized == before.initialized && after.map()
            == before.map().remove(id),
        Err(_) => after == before,
    }
}

/// What closing `id` returns, given the status the transport answered the
/// close with (0 is success).
pub open spec fn spec_close(m: RegistryView, id: Seq<char>, status: i32) -> Result<(), ErrorView> {
    match spec_get(m, id) {
        Err(e) => Err(e),
        Ok(c) => if has_nul(c.id) {
            Err((ErrorKind::InvalidString, nul_error_message()))
        } else {
            status_outcome(status, ErrorKind::NetworkError, close_failed_message())
        },
    }
}

/// What sending `msg` over the connection `id` returns, given the status
/// the transport answered the send with (0 is success).
pub open spec fn spec_send(m: RegistryView, id: Seq<char>, msg: NetworkMessageView, status: i32) -> Result<(), ErrorView> {
    match spec_get(m, id) {
        Err(e) => Err(e),
        Ok(c) => match spec_send_text(c, msg) {
            Err(e) => Err(e),
            Ok(_) => status_outcome(status, ErrorKind::NetworkError, send_failed_message()),
        },
    }
}

/// The checks a receive on `id` passes, given the status the transport
/// answered with (0 is success).
pub open spec fn spec_receive(m: RegistryView, id: Seq<char>, status: i32) -> Result<(), ErrorView> {
    match spec_get(m, id) {
        Err(e) => Err(e),
        Ok(c) => if has_nul(c.id) {
            Err((ErrorKind::InvalidString, nul_error_message()))
        } else {
            status_outcome(status, ErrorKind::NetworkError, receive_failed_message())
        },
    }
}

/// Whether sending `msg` over `c` failed, given the transport's status for
/// it, if it was asked.
pub open spec fn send_failed(c: ConnectionView, msg: NetworkMessageView, status: Option<i32>) -> bool {
    spec_send_text(c, msg) is Err || status != Some(0i32)
}

/// The status reported for the `i`-th connection, if one was.
pub open spec fn status_at(statuses: Seq<i32>, i: int) -> Option<i32> {
    if 0 <= i < statuses.len() {
        Some(statuses[i])
    } else {
        None
    }
}

/// The ids, in order, of the connections of `conns` the send of `msg`
/// failed on; `statuses[i]` is the transport's status for the `i`-th.
pub open spec fn failed_ids(conns: Seq<ConnectionView>, msg: NetworkMessageView, statuses: Seq<i32>) -> Seq<Seq<char>>
    decreases conns.len(),
{
    if conns.len() == 0 {
        Seq::empty()
    } else {
        let i = conns.len() - 1;
        let rest = failed_ids(conns.drop_last(), msg, statuses);
        if send_failed(conns[i], msg, status_at(statuses, i)) {
            rest.push(conns[i].id)
        } else {
            rest
        }
    }
}

/// The registry after every connection was deregistered.
pub open spec fn spec_close_all(m: RegistryView) -> RegistryView {
    RegistryView { initialized: m.initialized, connections: Seq::empty() }
}

/// Creating a connection for a valid configuration succeeds once the
/// transport opened it, and looking its id up right after gives back the
/// very connection that creation returned, `Connected`, with the
/// configuration it was made from.
pub proof fn lemma_create_then_get(
    before: RegistryView,
    after: RegistryView,
    config: NetworkConfigView,
    created: Option<Seq<char>>,
)
    requires
        before.wf(),
        registers(before, after, spec_create(before, config, created)),
    ensures
        before.initialized && !has_nul(config.host) && created is Some ==> spec_create(
            before,
            config,
            created,
        ) is Ok,
        match spec_create(before, config, created) {
            Ok(c) => {
                &&& spec_get(after, c.id) == Ok::<ConnectionView, ErrorView>(c)
                &&& c.state == ConnectionState::Connected
                &&& c.config == config
            },
            Err(_) => after == before,
        },
{
}

/// Closing an id the registry does not hold gives `ResourceNotFound`,
/// whatever the transport would answer, and leaves the registry as it was.
pub proof fn lemma_close_unknown(before: RegistryView, after: RegistryView, id: Seq<char>, status: i32)
    requires
        before.wf(),
        !before.map().contains_key(id),
        deregisters(before, after, id, spec_close(before, id, status)),
    ensures
        spec_close(before, id, status) == Err::<(), ErrorView>(
            (ErrorKind::ResourceNotFound, not_found_message(id)),
        ),
        after == before,
{
}

/// Closing every connection leaves none registered, whatever number there
/// were and whatever the transport answers each close with.
pub proof fn lemma_close_all_empties(m: RegistryView)
    requires
        m.wf(),
    ensures
        spec_close_all(m).wf(),
        spec_close_all(m).map().len() == 0,
{
    let k = keyed(spec_close_all(m).connections);
    assert(k =~= Seq::<(Seq<char>, ConnectionView)>::empty());
    lemma_pairs_map_len(k);
}

/// The views of a sequence of connections.
pub open spec fn conn_views(conns: Seq<NetworkConnection>) -> Seq<ConnectionView> {
    conns.map_values(|c: NetworkConnection| c@)
}

/// The values of a sequence of strings.
pub open spec fn string_views(strings: Seq<String>) -> Seq<Seq<char>> {
    strings.map_values(|s: String| s@)
}

/// A connection result as a value.
pub open spec fn conn_result(r: CoreBaseResult<NetworkConnection>) -> Result<ConnectionView, ErrorView> {
    match r {
        Ok(c) => Ok(c@),
        Err(e) => Err(e@),
    }
}

/// The registry of open connections: it alone adds and removes them. The
/// native transport is driven by the caller; the registry's operations take
/// what the transport answered.
#[derive(Debug)]
pub struct NetworkManager {
    initialized: bool,
    connections: Vec<NetworkConnection>,
}

impl View for NetworkManager {
    type V = RegistryView;

    closed spec fn view(&self) -> RegistryView {
        RegistryView { initialized: self.initialized, connections: conn_views(self.connections@) }
    }
}

impl NetworkManager {
    /// An initialized registry with no connection.
    pub fn new() -> (r: CoreBaseResult<NetworkManager>)
        ensures
            r matches Ok(m) && m@.wf() && m@.initialized && m@.connections.len() == 0,
    {
        let m = NetworkManager { initialized: true, connections: Vec::new() };
        assert(m@.connections =~= Seq::<ConnectionView>::empty());
        Ok(m)
    }

    /// Whether the registry accepts new connections.
    pub fn is_initialized(&self) -> (r: bool)
        ensures
            r == self@.initialized,
    {
        self.initialized
    }

    /// Where the connection `id` stands in the registry, if it is there.
    fn find(&self, id: &String) -> (r: Option<usize>)
        requires
            self@.wf(),
        ensures
            match r {
                Some(i) => i < self.connections@.len() && self.connections@[i as int].id@ == id@
                    && self@.map().contains_key(id@) && self@.map()[id@]
                    == self.connections@[i as int]@,
                None => !self@.map().contains_key(id@),
            },
    {
        let ghost k = keyed(self@.connections);
        let mut i: usize = 0;
        while i < self.connections.len()
            invariant
                i <= self.connections@.len(),
                k == keyed(conn_views(self.connections@)),
                keys_unique(k),
                forall|j: int| 0 <= j < i ==> self.connections@[j].id@ != id@,
            decreases self.connections@.len() - i,
        {
            if self.connections[i].id == *id {
                proof {
                    lemma_pairs_map_get(k, i as int);
                }
                return Some(i);
            }
            i = i + 1;
        }
        proof {
            lemma_pairs_map_dom(k, id@);
            if self@.map().contains_key(id@) {
                let j = choose|j: int| 0 <= j < k.len() && k[j].0 == id@;
                assert(self.connections@[j].id@ == id@);
            }
        }
        None
    }

    /// The connection registered under `connection_id`, as a copy.
    pub fn get_connection(&self, connection_id: &str) -> (r: CoreBaseResult<NetworkConnection>)
        requires
            self@.wf(),
        ensures
            conn_result(r) == spec_get(self@, connection_id@),
    {
        let id = String::from_str(connection_id);
        match self.find(&id) {
            Some(i) => Ok(self.connections[i].clone()),
            None => {
                let mut detail = String::from_str("Connection not found: ");
                detail.append(connection_id);
                Err(CoreBaseError::ResourceNotFound(detail))
            },
        }
    }

    /// Copies of all registered connections, in the registry's order.
    pub fn list_connections(&self) -> (r: CoreBaseResult<Vec<NetworkConnection>>)
        ensures
            r matches Ok(v) && conn_views(v@) == self@.connections,
    {
        let mut listed: Vec<NetworkConnection> = Vec::new();
        let mut i: usize = 0;
        while i < self.connections.len()
            invariant
                i <= self.connections@.len(),
                conn_views(listed@) =~= conn_views(self.connections@).subrange(0, i as int),
            decreases self.connections@.len() - i,
        {
            let c = self.connections[i].clone();
            let ghost prev = listed@;
            listed.push(c);
            assert(conn_views(listed@) =~= conn_views(prev).push(self.connections@[i as int]@));
            i = i + 1;
        }
        assert(conn_views(self.connections@).subrange(0, i as int) =~= conn_views(self.connections@));
        Ok(listed)
    }

    /// The number of registered connections.
    pub fn connection_count(&self) -> (r: usize)
        requires
            self@.wf(),
        ensures
            r == self@.map().len(),
    {
        proof {
            lemma_pairs_map_len(keyed(self@.connections));
        }
        self.connections.len()
    }

    /// The checks a creation passes before the transport is asked to open a
    /// connection for `config`.
    pub fn prepare_connection(&self, config: &NetworkConfig) -> (r: CoreBaseResult<()>)
        ensures
            outcome(r) == spec_create_check(self@, config@),
    {
        if !self.initialized {
            return Err(
                CoreBaseError::OperationFailed(String::from_str("NetworkManager not initialized")),
            );
        }
        check_c_string(config.host.as_str())
    }

    /// Creates a connection for `config`, given the id the transport
    /// opened it under (`None` when the transport failed): on success the
    /// connection, `Connected`, is registered under that id and a copy is
    /// returned; on failure the registry is left as it was.
    pub fn create_connection(&mut self, config: NetworkConfig, created: Option<String>) -> (r:
        CoreBaseResult<NetworkConnection>)
        requires
            old(self)@.wf(),
        ensures
            conn_result(r) == spec_create(old(self)@, config@, opt_view(created)),
            registers(old(self)@, final(self)@, conn_result(r)),
    {
        match self.prepare_connection(&config) {
            Err(e) => return Err(e),
            Ok(()) => {},
        }
        let id = match created {
            None => {
                return Err(
                    CoreBaseError::NetworkError(String::from_str("Failed to create network connection")),
                );
            },
            Some(id) => id,
        };
        let connection = NetworkConnection {
            id: id.clone(),
            config,
            state: ConnectionState::Connected,
        };
        let stored = connection.clone();
        let ghost before = keyed(self@.connections);
        match self.find(&id) {
            Some(i) => {
                proof {
                    lemma_pairs_map_update(before, i as int, stored@);
                }
                self.connections.set(i, stored);
                assert(keyed(self@.connections) =~= before.update(i as int, (before[i as int].0, connection@)));
            },
            None => {
                proof {
                    lemma_pairs_map_push(before, id@, connection@);
                    assert forall|j: int| 0 <= j < before.len() implies before[j].0 != id@ by {
                        lemma_pairs_map_dom(before, id@);
                    }
                }
                self.connections.push(stored);
                assert(keyed(self@.connections) =~= before.push((id@, connection@)));
            },
        }
        Ok(connection)
    }

    /// Closes `connection_id`, given the status the transport answered the
    /// close with (0 is success). An unknown id gives `ResourceNotFound`;
    /// the connection is removed only when the transport closed it, so a
    /// failed close may be retried.
    pub fn close_connection(&mut self, connection_id: &str, status: i32) -> (r: CoreBaseResult<()>)
        requires
            old(self)@.wf(),
        ensures
            outcome(r) == spec_close(old(self)@, connection_id@, status),
            deregisters(old(self)@, final(self)@, connection_id@, outcome(r)),
    {
        let id = String::from_str(connection_id);
        let i = match self.find(&id) {
            None => {
                let mut detail = String::from_str("Connection not found: ");
                detail.append(connection_id);
                return Err(CoreBaseError::ResourceNotFound(detail));
            },
            Some(i) => i,
        };
        match check_c_string(self.connections[i].id.as_str()) {
            Err(e) => return Err(e),
            Ok(()) => {},
        }
        match NetworkConnection::close_outcome(status) {
            Err(e) => Err(e),
            Ok(()) => {
                let ghost before = keyed(self@.connections);
                proof {
                    lemma_pairs_map_remove(before, i as int);
                }
                self.connections.remove(i);
                assert(keyed(self@.connections) =~= before.remove(i as int));
                Ok(())
            },
        }
    }

    /// Deregisters every connection and returns their ids, which the caller
    /// then closes on the transport, whatever each close answers: teardown
    /// does not stop part way.
    pub fn close_all_connections(&mut self) -> (r: Vec<String>)
        requires
            old(self)@.wf(),
        ensures
            final(self)@ == spec_close_all(old(self)@),
            final(self)@.wf(),
            string_views(r@) == old(self)@.connections.map_values(|c: ConnectionView| c.id),
    {
        let mut ids: Vec<String> = Vec::new();
        let mut i: usize = 0;
        while i < self.connections.len()
            invariant
                i <= self.connections@.len(),
                string_views(ids@) =~= self@.connections.map_values(|c: ConnectionView| c.id).subrange(
                    0,
                    i as int,
                ),
            decreases self.connections@.len() - i,
        {
            let id = self.connections[i].id.clone();
            let ghost prev = ids@;
            ids.push(id);
            assert(string_views(ids@) =~= string_views(prev).push(self.connections@[i as int].id@));
            i = i + 1;
        }
        assert(self@.connections.map_values(|c: ConnectionView| c.id).subrange(0, i as int)
            =~= self@.connections.map_values(|c: ConnectionView| c.id));
        self.connections = Vec::new();
        assert(self@.connections =~= Seq::<ConnectionView>::empty());
        ids
    }

    /// What sending `message` over `connection_id` returns, given the status
    /// the transport answered the send with (0 is success).
    pub fn send_message(&self, connection_id: &str, message: &NetworkMessage, status: i32) -> (r:
        CoreBaseResult<()>)
        requires
            self@.wf(),
        ensures
            outcome(r) == spec_send(self@, connection_id@, message@, status),
    {
        let connection = match self.get_connection(connection_id) {
            Err(e) => return Err(e),
            Ok(c) => c,
        };
        match connection.send_text(message) {
            Err(e) => Err(e),
            Ok(_) => NetworkConnection::send_outcome(status),
        }
    }

    /// What receiving on `connection_id` returns, given the status the
    /// transport answered with (0 is success) and the buffer it filled.
    pub fn receive_message(&self, connection_id: &str, status: i32, buffer: &[u8]) -> (r:
        CoreBaseResult<NetworkMessage>)
        requires
            self@.wf(),
        ensures
            match r {
                Ok(m) => spec_receive(self@, connection_id@, status) is Ok && payload_of(
                    buffer@,
                    m.data@,
                ) && m@ == bare_message(m.data@, m.timestamp),
                Err(e) => spec_receive(self@, connection_id@, status) == Err::<(), ErrorView>(e@),
            },
    {
        let connection = match self.get_connection(connection_id) {
            Err(e) => return Err(e),
            Ok(c) => c,
        };
        match check_c_string(connection.id.as_str()) {
            Err(e) => return Err(e),
            Ok(()) => {},
        }
        NetworkConnection::receive_outcome(status, buffer)
    }

    /// The ids of the connections a broadcast of `message` failed on, in
    /// the registry's order. `statuses[i]` is what the transport answered
    /// the send over the `i`-th listed connection with; a connection the
    /// message could not be sent over, or with no status, counts as failed.
    /// Nothing is removed from the registry.
    pub fn broadcast_message(&self, message: &NetworkMessage, statuses: &Vec<i32>) -> (r:
        CoreBaseResult<Vec<String>>)
        ensures
            r matches Ok(ids) && string_views(ids@) == failed_ids(
                self@.connections,
                message@,
                statuses@,
            ),
    {
        let mut failed: Vec<String> = Vec::new();
        let mut i: usize = 0;
        while i < self.connections.len()
            invariant
                i <= self.connections@.len(),
                string_views(failed@) == failed_ids(
                    self@.connections.subrange(0, i as int),
                    message@,
                    statuses@,
                ),
            decreases self.connections@.len() - i,
        {
            let ok = match self.connections[i].send_text(message) {
                Err(_) => false,
                Ok(_) => i < statuses.len() && statuses[i] == 0,
            };
            let ghost prev = failed@;
            let ghost conns = self@.connections.subrange(0, i as int + 1);
            assert(conns.drop_last() =~= self@.connections.subrange(0, i as int));
            assert(conns[i as int] == self.connections@[i as int]@);
            if !ok {
                failed.push(self.connections[i].id.clone());
                assert(string_views(failed@) =~= string_views(prev).push(self.connections@[i as int].id@));
            }
            i = i + 1;
        }
        assert(self@.connections.subrange(0, i as int) =~= self@.connections);
        Ok(failed)
    }
}

impl Default for NetworkManager {
    fn default() -> (r: NetworkManager)
        ensures
            r@.wf(),
            r@.initialized,
            r@.connections.len() == 0,
    {
        let m = NetworkManager { initialized: true, connections: Vec::new() };
        assert(m@.connections =~= Seq::<ConnectionView>::empty());
        m
    }
}

} // verus!
