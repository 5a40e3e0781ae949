//! WebSocket messaging: messages, connections and their channel
//! subscriptions, the hub that tracks connections and broadcast channels, and
//! the payloads of notifications, alerts, chat, live updates and presence.
use vstd::prelude::*;
use crate::store::{Store, key_at};
use crate::clock::{now_timestamp, new_uuid, time_bound};
use crate::text::{str_eq, texts};
use crate::json::{empty_json_object, json_object_of};

verus! {

#[verifier::external_type_specification]
#[verifier::external_body]
#[verifier::reject_recursive_types(T)]
pub struct ExBroadcastSender<T>(tokio::sync::broadcast::Sender<T>);

#[verifier::external_type_specification]
#[verifier::external_body]
#[verifier::reject_recursive_types(T)]
pub struct ExBroadcastReceiver<T>(tokio::sync::broadcast::Receiver<T>);

/// A broadcast channel through `tokio::sync::broadcast::channel`, which panics
/// on a capacity of zero or above `usize::MAX / 2`. Only the sender is kept.
#[verifier::external_body]
fn broadcast_channel(capacity: usize) -> tokio::sync::broadcast::Sender<WsMessage>
    requires
        0 < capacity <= usize::MAX / 2,
{
    tokio::sync::broadcast::channel(capacity).0
}

/// Another handle on the same channel, `Sender::clone`. A sender is a shared
/// handle on its channel (tokio's `Sender` holds an `Arc` of the channel and
/// its `clone` clones that `Arc`), so the copy is the same handle.
#[verifier::external_body]
fn clone_sender(sender: &tokio::sync::broadcast::Sender<WsMessage>) -> (r: tokio::sync::broadcast::Sender<WsMessage>)
    ensures
        r == *sender,
{
    sender.clone()
}

/// A new receiver of the channel, `Sender::subscribe`.
#[verifier::external_body]
fn subscribe_sender(sender: &tokio::sync::broadcast::Sender<WsMessage>) -> tokio::sync::broadcast::Receiver<WsMessage> {
    sender.subscribe()
}

/// Sends to every receiver through `Sender::send`: the number of receivers,
/// or `None` where there is none. Which of the two comes depends on the
/// receivers alive at that moment; the source fails the send when there is no
/// receiver, so a count that comes back is at least one.
#[verifier::external_body]
fn send_on(sender: &tokio::sync::broadcast::Sender<WsMessage>, message: WsMessage) -> (r: Option<usize>)
    ensures
        r matches Some(n) ==> n >= 1,
{
    sender.send(message).ok()
}

/// The number of receivers alive, `Sender::receiver_count`; it depends on the
/// receivers alive at that moment, so nothing is claimed of it.
#[verifier::external_body]
fn receivers_of(sender: &tokio::sync::broadcast::Sender<WsMessage>) -> usize {
    sender.receiver_count()
}

/// WebSocket message type
#[derive(Debug, Clone, Copy, PartialEq, Eq, Structural)]
pub enum MessageType {
    /// Text message
    Text,
    /// JSON message
    Json,
    /// Binary message
    Binary,
    /// Ping/pong
    Ping,
    Pong,
    /// Subscribe to channel
    Subscribe,
    /// Unsubscribe from channel
    Unsubscribe,
    /// Acknowledgment
    Ack,
    /// Error
    Error,
}

impl Default for MessageType {
    fn default() -> (r: Self)
        ensures
            r == MessageType::Text,
    {
        MessageType::Text
    }
}

/// WebSocket message
#[derive(Debug, Clone)]
pub struct WsMessage {
    /// Message type
    pub msg_type: MessageType,
    /// Channel/topic
    pub channel: Option<String>,
    /// Payload
    pub payload: String,
    /// Message ID for acknowledgments
    pub id: Option<String>,
    /// Timestamp
    pub timestamp: i64,
}

impl WsMessage {
    /// A message of type `msg_type` stamped with `now`, on no channel, without id.
    pub fn new_at(msg_type: MessageType, payload: &str, now: i64) -> (r: Self)
        ensures
            r.msg_type == msg_type,
            r.channel is None,
            r.payload@ == payload@,
            r.id is None,
            r.timestamp == now,
    {
        WsMessage { msg_type, channel: None, payload: payload.to_owned(), id: None, timestamp: now }
    }

    /// A message of type `msg_type` stamped with the present time.
    pub fn new(msg_type: MessageType, payload: &str) -> (r: Self)
        ensures
            r.msg_type == msg_type,
            r.channel is None,
            r.payload@ == payload@,
            r.id is None,
            -time_bound() <= r.timestamp <= time_bound(),
    {
        Self::new_at(msg_type, payload, now_timestamp())
    }

    pub fn text(payload: &str) -> (r: Self)
        ensures
            r.msg_type == MessageType::Text,
            r.channel is None,
            r.payload@ == payload@,
            r.id is None,
            -time_bound() <= r.timestamp <= time_bound(),
    {
        Self::new(MessageType::Text, payload)
    }

    pub fn json(payload: &str) -> (r: Self)
        ensures
            r.msg_type == MessageType::Json,
            r.channel is None,
            r.payload@ == payload@,
            r.id is None,
            -time_bound() <= r.timestamp <= time_bound(),
    {
        Self::new(MessageType::Json, payload)
    }

    pub fn channel(self, channel: &str) -> (r: Self)
        ensures
            r.msg_type == self.msg_type,
            r.channel matches Some(c) && c@ == channel@,
            r.payload == self.payload,
            r.id == self.id,
            r.timestamp == self.timestamp,
    {
        let mut m = self;
        m.channel = Some(channel.to_owned());
        m
    }

    pub fn with_id(self, id: &str) -> (r: Self)
        ensures
            r.msg_type == self.msg_type,
            r.channel == self.channel,
            r.payload == self.payload,
            r.id matches Some(i) && i@ == id@,
            r.timestamp == self.timestamp,
    {
        let mut m = self;
        m.id = Some(id.to_owned());
        m
    }

    /// An acknowledgment stamped with `now`, carrying the id of the
    /// acknowledged message.
    pub fn ack_at(payload: &str, original_id: &str, now: i64) -> (r: Self)
        ensures
            r.msg_type == MessageType::Ack,
            r.channel is None,
            r.payload@ == payload@,
            r.id matches Some(i) && i@ == original_id@,
            r.timestamp == now,
    {
        Self::new_at(MessageType::Ack, payload, now).with_id(original_id)
    }

    /// An acknowledgment carrying the id of the acknowledged message, stamped
    /// with the present time.
    pub fn ack(payload: &str, original_id: &str) -> (r: Self)
        ensures
            r.msg_type == MessageType::Ack,
            r.channel is None,
            r.payload@ == payload@,
            r.id matches Some(i) && i@ == original_id@,
            -time_bound() <= r.timestamp <= time_bound(),
    {
        Self::ack_at(payload, original_id, now_timestamp())
    }

    pub fn error(payload: &str) -> (r: Self)
        ensures
            r.msg_type == MessageType::Error,
            r.channel is None,
            r.payload@ == payload@,
            r.id is None,
            -time_bound() <= r.timestamp <= time_bound(),
    {
        Self::new(MessageType::Error, payload)
    }
}


/// Connection info
#[derive(Debug)]
pub struct ConnectionInfo {
    pub id: String,
    pub user_id: Option<String>,
    pub ip_address: Option<String>,
    pub user_agent: Option<String>,
    pub channels: Vec<String>,
    pub connected_at: i64,
}

/// The view of an optional text.
pub open spec fn opt_text(o: Option<String>) -> Option<Seq<char>> {
    match o {
        Some(s) => Some(s@),
        None => None,
    }
}

fn copy_opt(o: &Option<String>) -> (r: Option<String>)
    ensures
        r == *o,
{
    match o {
        Some(s) => Some(s.clone()),
        None => None,
    }
}

fn copy_strings(v: &Vec<String>) -> (r: Vec<String>)
    ensures
        r@ == v@,
{
    let mut out: Vec<String> = Vec::new();
    for i in 0..v.len()
        invariant
            out@ == v@.take(i as int),
    {
        out.push(v[i].clone());
        assert(out@ =~= v@.take(i + 1));
    }
    assert(v@.take(v@.len() as int) =~= v@);
    out
}

impl ConnectionInfo {
    /// A connection `id` made at `now`, with no user, address, agent or channel.
    pub fn new_at(id: &str, now: i64) -> (r: Self)
        ensures
            r.id@ == id@,
            r.user_id is None,
            r.ip_address is None,
            r.user_agent is None,
            r.channels@.len() == 0,
            r.connected_at == now,
    {
        ConnectionInfo {
            id: id.to_owned(),
            user_id: None,
            ip_address: None,
            user_agent: None,
            channels: Vec::new(),
            connected_at: now,
        }
    }

    /// A connection `id` made at the present time.
    pub fn new(id: &str) -> (r: Self)
        ensures
            r.id@ == id@,
            r.user_id is None,
            r.ip_address is None,
            r.user_agent is None,
            r.channels@.len() == 0,
    {
        Self::new_at(id, now_timestamp())
    }

    pub fn with_user(self, user_id: &str) -> (r: Self)
        ensures
            r.id == self.id,
            r.user_id matches Some(u) && u@ == user_id@,
            r.ip_address == self.ip_address,
            r.user_agent == self.user_agent,
            r.channels == self.channels,
            r.connected_at == self.connected_at,
    {
        let mut c = self;
        c.user_id = Some(user_id.to_owned());
        c
    }

    pub fn with_ip(self, ip: &str) -> (r: Self)
        ensures
            r.id == self.id,
            r.user_id == self.user_id,
            r.ip_address matches Some(a) && a@ == ip@,
            r.user_agent == self.user_agent,
            r.channels == self.channels,
            r.connected_at == self.connected_at,
    {
        let mut c = self;
        c.ip_address = Some(ip.to_owned());
        c
    }

    pub fn with_agent(self, agent: &str) -> (r: Self)
        ensures
            r.id == self.id,
            r.user_id == self.user_id,
            r.ip_address == self.ip_address,
            r.user_agent matches Some(a) && a@ == agent@,
            r.channels == self.channels,
            r.connected_at == self.connected_at,
    {
        let mut c = self;
        c.user_agent = Some(agent.to_owned());
        c
    }

    /// Whether the connection is subscribed to `channel`.
    fn has_channel(&self, channel: &str) -> (r: bool)
        ensures
            r == texts(self.channels@).contains(channel@),
    {
        let n = self.channels.len();
        for i in 0..n
            invariant
                n == self.channels@.len(),
                forall|j: int| 0 <= j < i ==> self.channels@[j]@ != channel@,
        {
            if str_eq(self.channels[i].as_str(), channel) {
                assert(texts(self.channels@)[i as int] == channel@);
                return true;
            }
        }
        assert(!texts(self.channels@).contains(channel@)) by {
            if texts(self.channels@).contains(channel@) {
                let j = choose|j: int| 0 <= j < texts(self.channels@).len() && texts(self.channels@)[j] == channel@;
                assert(self.channels@[j]@ == channel@);
            }
        }
        false
    }

    /// Subscribes to `channel`; a channel already subscribed is not added twice.
    pub fn subscribe(&mut self, channel: &str)
        ensures
            final(self).id == old(self).id,
            final(self).user_id == old(self).user_id,
            final(self).ip_address == old(self).ip_address,
            final(self).user_agent == old(self).user_agent,
            final(self).connected_at == old(self).connected_at,
            texts(final(self).channels@) == if texts(old(self).channels@).contains(channel@) {
                texts(old(self).channels@)
            } else {
                texts(old(self).channels@).push(channel@)
            },
    {
        if !self.has_channel(channel) {
            let ghost before = self.channels@;
            self.channels.push(channel.to_owned());
            assert(texts(self.channels@) =~= texts(before).push(channel@));
        }
    }

    /// Unsubscribes from `channel`: every occurrence of it is removed, the
    /// other channels keep their order.
    pub fn unsubscribe(&mut self, channel: &str)
        ensures
            final(self).id == old(self).id,
            final(self).user_id == old(self).user_id,
            final(self).ip_address == old(self).ip_address,
            final(self).user_agent == old(self).user_agent,
            final(self).connected_at == old(self).connected_at,
            texts(final(self).channels@) == texts(old(self).channels@).filter(|c: Seq<char>| c != channel@),
    {
        let ghost old_texts = texts(self.channels@);
        let mut kept: Vec<String> = Vec::new();
        let n = self.channels.len();
        for i in 0..n
            invariant
                n == self.channels@.len(),
                old_texts == texts(self.channels@),
                texts(kept@) == old_texts.take(i as int).filter(|c: Seq<char>| c != channel@),
        {
            let ghost prefix = old_texts.take(i + 1);
            assert(prefix.drop_last() =~= old_texts.take(i as int));
            reveal_with_fuel(Seq::filter, 1);
            if !str_eq(self.channels[i].as_str(), channel) {
                let ghost k0 = kept@;
                kept.push(self.channels[i].clone());
                assert(texts(kept@) =~= texts(k0).push(self.channels@[i as int]@));
            }
        }
        assert(old_texts.take(n as int) =~= old_texts);
        self.channels = kept;
    }

    /// A copy of the connection info.
    pub fn duplicate(&self) -> (r: Self)
        ensures
            r.id == self.id,
            r.user_id == self.user_id,
            r.ip_address == self.ip_address,
            r.user_agent == self.user_agent,
            r.channels@ == self.channels@,
            r.connected_at == self.connected_at,
    {
        ConnectionInfo {
            id: self.id.clone(),
            user_id: copy_opt(&self.user_id),
            ip_address: copy_opt(&self.ip_address),
            user_agent: copy_opt(&self.user_agent),
            channels: copy_strings(&self.channels),
            connected_at: self.connected_at,
        }
    }
}

/// Subscribing twice to a channel is the same as subscribing once.
pub proof fn subscribe_idempotent(channels: Seq<Seq<char>>, channel: Seq<char>)
    ensures
        ({
            let once = if channels.contains(channel) { channels } else { channels.push(channel) };
            let twice = if once.contains(channel) { once } else { once.push(channel) };
            once.contains(channel) && twice == once
        }),
{
    if !channels.contains(channel) {
        assert(channels.push(channel)[channels.len() as int] == channel);
    }
}

/// Subscribing keeps a channel list free of repetitions.
pub proof fn subscribe_keeps_distinct(channels: Seq<Seq<char>>, channel: Seq<char>)
    requires
        channels.no_duplicates(),
    ensures
        (if channels.contains(channel) { channels } else { channels.push(channel) }).no_duplicates(),
{
}

/// After unsubscribing, the channel is no longer in the list, and every other
/// channel that was there still is.
pub proof fn unsubscribe_removes(channels: Seq<Seq<char>>, channel: Seq<char>, other: Seq<char>)
    requires
        other != channel,
    ensures
        !channels.filter(|c: Seq<char>| c != channel).contains(channel),
        channels.contains(other) ==> channels.filter(|c: Seq<char>| c != channel).contains(other),
{
    let f = channels.filter(|c: Seq<char>| c != channel);
    if f.contains(channel) {
        let i = choose|i: int| 0 <= i < f.len() && f[i] == channel;
        channels.lemma_filter_pred(|c: Seq<char>| c != channel, i);
    }
    if channels.contains(other) {
        let i = choose|i: int| 0 <= i < channels.len() && channels[i] == other;
        channels.lemma_filter_contains(|c: Seq<char>| c != channel, i);
    }
}

/// Subscribing to a channel that a connection is not subscribed to, then
/// unsubscribing from it, gives back the channels it had, in their order.
pub proof fn subscribe_then_unsubscribe(channels: Seq<Seq<char>>, channel: Seq<char>)
    requires
        !channels.contains(channel),
    ensures
        (if channels.contains(channel) { channels } else { channels.push(channel) }).filter(
            |c: Seq<char>| c != channel,
        ) == channels,
{
    let pushed = channels.push(channel);
    reveal_with_fuel(Seq::filter, 1);
    assert(pushed.drop_last() =~= channels);
    lemma_filter_absent(channels, channel);
}

/// Removing a channel that a list does not hold leaves the list as it was.
proof fn lemma_filter_absent(channels: Seq<Seq<char>>, channel: Seq<char>)
    requires
        !channels.contains(channel),
    ensures
        channels.filter(|c: Seq<char>| c != channel) == channels,
    decreases channels.len(),
{
    reveal_with_fuel(Seq::filter, 1);
    if channels.len() > 0 {
        let rest = channels.drop_last();
        assert forall|i: int| 0 <= i < rest.len() implies rest[i] != channel by {
            assert(rest[i] == channels[i]);
        }
        lemma_filter_absent(rest, channel);
        assert(channels.last() != channel);
        assert(rest.push(channels.last()) =~= channels);
    }
}

/// WebSocket events
#[derive(Debug)]
pub enum WsEvent {
    /// Client connected
    Connected(ConnectionInfo),
    /// Client disconnected
    Disconnected { id: String, reason: Option<String> },
    /// Message received
    Message { connection_id: String, message: WsMessage },
    /// Client subscribed to channel
    Subscribed { connection_id: String, channel: String },
    /// Client unsubscribed from channel
    Unsubscribed { connection_id: String, channel: String },
    /// Error
    Error { connection_id: String, error: String },
    /// Broadcast to channel
    Broadcast { channel: String, message: WsMessage },
    /// Send to specific user
    SendToUser { user_id: String, message: WsMessage },
    /// Send to specific connection
    SendToConnection { connection_id: String, message: WsMessage },
}

/// No-op connection handler
pub struct NoOpHandler;

/// WebSocket server configuration
#[derive(Debug, Clone)]
pub struct WsServerConfig {
    /// Server host
    pub host: String,
    /// Server port
    pub port: u16,
    /// Path for WebSocket endpoint
    pub path: String,
    /// Max connections
    pub max_connections: usize,
    /// Message queue size
    pub message_queue_size: usize,
    /// Ping interval in seconds
    pub ping_interval_secs: u64,
    /// Pong timeout in seconds
    pub pong_timeout_secs: u64,
}

impl Default for WsServerConfig {
    /// `0.0.0.0:8080` at `/ws`, 10000 connections, queues of 100, ping every 30 s, pong timeout 10 s.
    fn default() -> (r: Self)
        ensures
            r.host@ == "0.0.0.0"@,
            r.port == 8080,
            r.path@ == "/ws"@,
            r.max_connections == 10000,
            r.message_queue_size == 100,
            r.ping_interval_secs == 30,
            r.pong_timeout_secs == 10,
    {
        WsServerConfig {
            host: String::from_str("0.0.0.0"),
            port: 8080,
            path: String::from_str("/ws"),
            max_connections: 10000,
            message_queue_size: 100,
            ping_interval_secs: 30,
            pong_timeout_secs: 10,
        }
    }
}

impl WsServerConfig {
    /// The defaults with the given host and port.
    pub fn new(host: &str, port: u16) -> (r: Self)
        ensures
            r.host@ == host@,
            r.port == port,
            r.path@ == "/ws"@,
            r.max_connections == 10000,
            r.message_queue_size == 100,
            r.ping_interval_secs == 30,
            r.pong_timeout_secs == 10,
    {
        let mut c = Self::default();
        c.host = host.to_owned();
        c.port = port;
        c
    }

    pub fn path(self, path: &str) -> (r: Self)
        ensures
            r.host == self.host,
            r.port == self.port,
            r.path@ == path@,
            r.max_connections == self.max_connections,
            r.message_queue_size == self.message_queue_size,
            r.ping_interval_secs == self.ping_interval_secs,
            r.pong_timeout_secs == self.pong_timeout_secs,
    {
        let mut c = self;
        c.path = path.to_owned();
        c
    }

    pub fn max_connections(self, max: usize) -> (r: Self)
        ensures
            r.host == self.host,
            r.port == self.port,
            r.path == self.path,
            r.max_connections == max,
            r.message_queue_size == self.message_queue_size,
            r.ping_interval_secs == self.ping_interval_secs,
            r.pong_timeout_secs == self.pong_timeout_secs,
    {
        let mut c = self;
        c.max_connections = max;
        c
    }

    pub fn message_queue_size(self, size: usize) -> (r: Self)
        ensures
            r.host == self.host,
            r.port == self.port,
            r.path == self.path,
            r.max_connections == self.max_connections,
            r.message_queue_size == size,
            r.ping_interval_secs == self.ping_interval_secs,
            r.pong_timeout_secs == self.pong_timeout_secs,
    {
        let mut c = self;
        c.message_queue_size = size;
        c
    }

    pub fn ping_interval(self, secs: u64) -> (r: Self)
        ensures
            r.host == self.host,
            r.port == self.port,
            r.path == self.path,
            r.max_connections == self.max_connections,
            r.message_queue_size == self.message_queue_size,
            r.ping_interval_secs == secs,
            r.pong_timeout_secs == self.pong_timeout_secs,
    {
        let mut c = self;
        c.ping_interval_secs = secs;
        c
    }
}

/// WebSocket errors
#[derive(Debug)]
pub enum WsError {
    ConnectionClosed,
    ChannelClosed,
    InvalidMessage,
    NotAuthenticated,
    RateLimited,
    Internal(String),
}

impl WsError {
    pub open spec fn describe(&self) -> Seq<char> {
        match self {
            WsError::ConnectionClosed => "Connection closed"@,
            WsError::ChannelClosed => "Channel closed"@,
            WsError::InvalidMessage => "Invalid message"@,
            WsError::NotAuthenticated => "Not authenticated"@,
            WsError::RateLimited => "Rate limited"@,
            WsError::Internal(msg) => "Internal: "@ + msg@,
        }
    }

    /// The human-readable description of the error.
    pub fn to_string(&self) -> (r: String)
        ensures
            r@ == self.describe(),
    {
        match self {
            WsError::ConnectionClosed => String::from_str("Connection closed"),
            WsError::ChannelClosed => String::from_str("Channel closed"),
            WsError::InvalidMessage => String::from_str("Invalid message"),
            WsError::NotAuthenticated => String::from_str("Not authenticated"),
            WsError::RateLimited => String::from_str("Rate limited"),
            WsError::Internal(msg) => {
                let mut s = String::from_str("Internal: ");
                s.append(msg.as_str());
                s
            },
        }
    }
}

/// Channel subscriber: a handle on one broadcast channel.
pub struct ChannelSubscriber {
    sender: tokio::sync::broadcast::Sender<WsMessage>,
}

impl ChannelSubscriber {
    /// The channel the subscriber is a handle on, through its sender.
    pub closed spec fn sender_spec(&self) -> tokio::sync::broadcast::Sender<WsMessage> {
        self.sender
    }

    /// A handle on the channel of `sender`.
    pub fn new(sender: tokio::sync::broadcast::Sender<WsMessage>) -> (r: Self)
        ensures
            r.sender_spec() == sender,
    {
        ChannelSubscriber { sender }
    }

    /// A new receiver of the channel.
    pub fn subscribe(&self) -> tokio::sync::broadcast::Receiver<WsMessage> {
        subscribe_sender(&self.sender)
    }

    /// Sends to every receiver: their number, or `ChannelClosed` when there is none.
    pub fn broadcast(&self, message: WsMessage) -> (r: Result<usize, WsError>)
        ensures
            r matches Ok(n) ==> n >= 1,
            r matches Err(e) ==> e is ChannelClosed,
    {
        match send_on(&self.sender, message) {
            Some(n) => Ok(n),
            None => Err(WsError::ChannelClosed),
        }
    }
}

/// The users of the connections in a map: `Some(user)` or `None` per connection id.
pub open spec fn connection_user(c: ConnectionInfo) -> Option<Seq<char>> {
    opt_text(c.user_id)
}

/// WebSocket hub - manages connections and channels
pub struct WsHub {
    connections: Store<ConnectionInfo>,
    channels: Store<tokio::sync::broadcast::Sender<WsMessage>>,
    config: WsServerConfig,
}

impl WsHub {
    /// The connections by id.
    pub closed spec fn connections_spec(&self) -> Map<Seq<char>, ConnectionInfo> {
        self.connections@
    }

    /// The names of the channels created.
    pub closed spec fn channel_names(&self) -> Set<Seq<char>> {
        self.channels@.dom()
    }

    /// The sender of each channel created, by name.
    pub closed spec fn channel_senders(&self) -> Map<Seq<char>, tokio::sync::broadcast::Sender<WsMessage>> {
        self.channels@
    }

    pub closed spec fn config_spec(&self) -> WsServerConfig {
        self.config
    }

    /// Every hub keeps each connection under its own id.
    #[verifier::type_invariant]
    closed spec fn wf(&self) -> bool {
        forall|k: Seq<char>| #[trigger] self.connections@.contains_key(k) ==> self.connections@[k].id@ == k
    }

    /// A hub with no connection and no channel.
    pub fn new(config: WsServerConfig) -> (r: Self)
        ensures
            r.connections_spec() == Map::<Seq<char>, ConnectionInfo>::empty(),
            r.channel_names() == Set::<Seq<char>>::empty(),
            r.config_spec() == config,
    {
        WsHub { connections: Store::new(), channels: Store::new(), config }
    }

    /// Register a new connection under its id, replacing any connection with that id
    pub fn register_connection(&mut self, info: ConnectionInfo)
        ensures
            final(self).connections_spec() == old(self).connections_spec().insert(info.id@, info),
            final(self).channel_names() == old(self).channel_names(),
            final(self).config_spec() == old(self).config_spec(),
    {
        proof { use_type_invariant(&*self); }
        let id = info.id.clone();
        let ghost old_c = self.connections@;
        let mut connections: Store<ConnectionInfo> = Store::new();
        std::mem::swap(&mut connections, &mut self.connections);
        connections.insert(id, info);
        assert forall|k: Seq<char>| #[trigger] connections@.contains_key(k) implies connections@[k].id@ == k by {
            if k != info.id@ {
                assert(old_c.contains_key(k));
            }
        }
        self.connections = connections;
    }

    /// Remove a connection
    pub fn remove_connection(&mut self, connection_id: &str) -> (r: Option<ConnectionInfo>)
        ensures
            final(self).connections_spec() == old(self).connections_spec().remove(connection_id@),
            r is Some <==> old(self).connections_spec().contains_key(connection_id@),
            r matches Some(c) ==> c == old(self).connections_spec()[connection_id@],
            final(self).channel_names() == old(self).channel_names(),
            final(self).config_spec() == old(self).config_spec(),
    {
        proof { use_type_invariant(&*self); }
        let ghost old_c = self.connections@;
        let mut connections: Store<ConnectionInfo> = Store::new();
        std::mem::swap(&mut connections, &mut self.connections);
        let r = connections.remove(connection_id);
        assert forall|k: Seq<char>| #[trigger] connections@.contains_key(k) implies connections@[k].id@ == k by {
            assert(old_c.contains_key(k));
        }
        self.connections = connections;
        r
    }

    /// Get connection info
    pub fn get_connection(&self, connection_id: &str) -> (r: Option<ConnectionInfo>)
        ensures
            r is Some <==> self.connections_spec().contains_key(connection_id@),
            r matches Some(c) ==> {
                let s = self.connections_spec()[connection_id@];
                &&& c.id == s.id
                &&& c.user_id == s.user_id
                &&& c.ip_address == s.ip_address
                &&& c.user_agent == s.user_agent
                &&& c.channels@ == s.channels@
                &&& c.connected_at == s.connected_at
            },
    {
        match self.connections.get(connection_id) {
            Some(c) => Some(c.duplicate()),
            None => None,
        }
    }

    /// The ids of all connections of a user (each once; in no particular order)
    pub fn get_user_connections(&self, user_id: &str) -> (r: Vec<String>)
        ensures
            texts(r@).no_duplicates(),
            forall|k: Seq<char>| #[trigger] texts(r@).contains(k) ==> self.connections_spec().contains_key(k)
                && connection_user(self.connections_spec()[k]) == Some(user_id@),
            forall|k: Seq<char>| #[trigger] self.connections_spec().contains_key(k)
                && connection_user(self.connections_spec()[k]) == Some(user_id@) ==> texts(r@).contains(k),
    {
        proof { use_type_invariant(&self.connections); self.connections.lemma_view(); }
        let n = self.connections.len();
        let mut out: Vec<String> = Vec::new();
        let mut i: usize = 0;
        while i < n
            invariant
                    i <= n,
                n == self.connections.entries().len(),
                forall|j: int| 0 <= j < out@.len() ==> exists|e: int| 0 <= e < i && #[trigger] out@[j]@ == self.connections.entries()[e].0@
                    && connection_user(self.connections.entries()[e].1) == Some(user_id@),
                forall|e: int| 0 <= e < i && connection_user(#[trigger] self.connections.entries()[e].1) == Some(user_id@)
                    ==> texts(out@).contains(self.connections.entries()[e].0@),
                texts(out@).no_duplicates(),
            decreases n - i,
        {
            proof { use_type_invariant(&self.connections); self.connections.lemma_view(); }
            let entry = self.connections.entry(i);
            let matches_user = match &entry.1.user_id {
                Some(u) => str_eq(u.as_str(), user_id),
                None => false,
            };
            if matches_user {
                let ghost o = out@;
                out.push(entry.0.clone());
                proof {
                    assert(texts(out@) =~= texts(o).push(entry.0@));
                    assert(!texts(o).contains(entry.0@)) by {
                        if texts(o).contains(entry.0@) {
                            let j = choose|j: int| 0 <= j < texts(o).len() && texts(o)[j] == entry.0@;
                            let e = choose|e: int| 0 <= e < i && #[trigger] o[j]@ == self.connections.entries()[e].0@
                                && connection_user(self.connections.entries()[e].1) == Some(user_id@);
                            assert(self.connections.entries()[e].0@ == self.connections.entries()[i as int].0@);
                        }
                    }
                    assert(texts(out@)[o.len() as int] == entry.0@);
                    assert forall|e: int| 0 <= e < i && connection_user(#[trigger] self.connections.entries()[e].1) == Some(user_id@)
                        implies texts(out@).contains(self.connections.entries()[e].0@) by {
                        let k = self.connections.entries()[e].0@;
                        let j = choose|j: int| 0 <= j < texts(o).len() && texts(o)[j] == k;
                        assert(texts(out@)[j] == k);
                    }
                }
            }
            proof {
                assert(matches_user <==> connection_user(self.connections.entries()[i as int].1) == Some(user_id@));
            }
            i = i + 1;
        }
        proof {
            use_type_invariant(&self.connections);
            self.connections.lemma_view();
            assert forall|k: Seq<char>| #[trigger] texts(out@).contains(k) implies self.connections_spec().contains_key(k)
                && connection_user(self.connections_spec()[k]) == Some(user_id@) by {
                {
                    let j = choose|j: int| 0 <= j < texts(out@).len() && texts(out@)[j] == k;
                    let e = choose|e: int| 0 <= e < n && #[trigger] out@[j]@ == self.connections.entries()[e].0@
                        && connection_user(self.connections.entries()[e].1) == Some(user_id@);
                    assert(self.connections@.contains_key(self.connections.entries()[e].0@));
                }
            }
            assert forall|k: Seq<char>| #[trigger] self.connections_spec().contains_key(k)
                && connection_user(self.connections_spec()[k]) == Some(user_id@) implies texts(out@).contains(k) by {
                let e = choose|e: int| key_at(self.connections.entries(), k, e);
                assert(self.connections@.contains_key(self.connections.entries()[e].0@));
            }
        }
        out
    }

    /// Create or get a channel
    pub fn get_or_create_channel(&mut self, name: &str) -> (r: ChannelSubscriber)
        requires
            0 < old(self).config_spec().message_queue_size <= usize::MAX / 2,
        ensures
            final(self).channel_names() == old(self).channel_names().insert(name@),
            final(self).connections_spec() == old(self).connections_spec(),
            final(self).config_spec() == old(self).config_spec(),
            r.sender_spec() == final(self).channel_senders()[name@],
            old(self).channel_names().contains(name@) ==> final(self).channel_senders() == old(self).channel_senders(),
            final(self).channel_senders().remove(name@) == old(self).channel_senders().remove(name@),
    {
        proof { use_type_invariant(&*self); }
        match self.channels.get(name) {
            Some(sender) => {
                let s = clone_sender(sender);
                assert(self.channels@.dom() =~= old(self).channel_names().insert(name@));
                assert(self.channels@.remove(name@) =~= old(self).channel_senders().remove(name@));
                ChannelSubscriber::new(s)
            },
            None => {
                let sender = broadcast_channel(self.config.message_queue_size);
                let kept = clone_sender(&sender);
                let mut channels: Store<tokio::sync::broadcast::Sender<WsMessage>> = Store::new();
                std::mem::swap(&mut channels, &mut self.channels);
                channels.insert(name.to_owned(), sender);
                self.channels = channels;
                assert(self.channels@.dom() =~= old(self).channel_names().insert(name@));
                assert(self.channels@.remove(name@) =~= old(self).channel_senders().remove(name@));
                ChannelSubscriber::new(kept)
            },
        }
    }

    /// Subscribe connection to channel (creating the channel)
    pub fn subscribe(&mut self, connection_id: &str, channel_name: &str)
        requires
            0 < old(self).config_spec().message_queue_size <= usize::MAX / 2,
        ensures
            final(self).channel_names() == old(self).channel_names().insert(channel_name@),
            final(self).connections_spec().dom() == old(self).connections_spec().dom(),
            forall|k: Seq<char>| k != connection_id@ && #[trigger] old(self).connections_spec().contains_key(k)
                ==> final(self).connections_spec()[k] == old(self).connections_spec()[k],
            old(self).connections_spec().contains_key(connection_id@) ==> {
                let before = old(self).connections_spec()[connection_id@];
                let after = final(self).connections_spec()[connection_id@];
                &&& after.id@ == before.id@
                &&& after.user_id == before.user_id
                &&& texts(after.channels@) == if texts(before.channels@).contains(channel_name@) {
                    texts(before.channels@)
                } else {
                    texts(before.channels@).push(channel_name@)
                }
            },
    {
        proof { use_type_invariant(&*self); }
        let found = match self.connections.get(connection_id) {
            Some(c) => Some(c.duplicate()),
            None => None,
        };
        match found {
            Some(c) => {
                let mut c = c;
                c.subscribe(channel_name);
                let ghost old_c = self.connections@;
                let id = c.id.clone();
                let mut connections: Store<ConnectionInfo> = Store::new();
                std::mem::swap(&mut connections, &mut self.connections);
                connections.insert(id, c);
                assert forall|k: Seq<char>| #[trigger] connections@.contains_key(k) implies connections@[k].id@ == k by {
                    if k != connection_id@ {
                        assert(old_c.contains_key(k));
                    }
                }
                assert(connections@.dom() =~= old_c.dom());
                self.connections = connections;
            },
            None => {},
        }
        let _ = self.get_or_create_channel(channel_name);
    }

    /// Unsubscribe connection from channel
    pub fn unsubscribe(&mut self, connection_id: &str, channel_name: &str)
        ensures
            final(self).channel_names() == old(self).channel_names(),
            final(self).connections_spec().dom() == old(self).connections_spec().dom(),
            forall|k: Seq<char>| k != connection_id@ && #[trigger] old(self).connections_spec().contains_key(k)
                ==> final(self).connections_spec()[k] == old(self).connections_spec()[k],
            old(self).connections_spec().contains_key(connection_id@) ==> {
                let before = old(self).connections_spec()[connection_id@];
                let after = final(self).connections_spec()[connection_id@];
                &&& after.id@ == before.id@
                &&& after.user_id == before.user_id
                &&& texts(after.channels@) == texts(before.channels@).filter(|c: Seq<char>| c != channel_name@)
            },
    {
        proof { use_type_invariant(&*self); }
        let found = match self.connections.get(connection_id) {
            Some(c) => Some(c.duplicate()),
            None => None,
        };
        match found {
            Some(c) => {
                let mut c = c;
                c.unsubscribe(channel_name);
                let ghost old_c = self.connections@;
                let id = c.id.clone();
                let mut connections: Store<ConnectionInfo> = Store::new();
                std::mem::swap(&mut connections, &mut self.connections);
                connections.insert(id, c);
                assert forall|k: Seq<char>| #[trigger] connections@.contains_key(k) implies connections@[k].id@ == k by {
                    if k != connection_id@ {
                        assert(old_c.contains_key(k));
                    }
                }
                assert(connections@.dom() =~= old_c.dom());
                self.connections = connections;
            },
            None => {},
        }
    }

    /// Broadcast to channel: `Ok(0)` for a channel never created; otherwise the
    /// number of receivers, or `ChannelClosed` when there is none.
    pub fn broadcast_to_channel(&self, channel: &str, message: WsMessage) -> (r: Result<usize, WsError>)
        ensures
            !self.channel_names().contains(channel@) ==> (r matches Ok(n) && n == 0),
            self.channel_names().contains(channel@) ==> (r matches Ok(n) ==> n >= 1),
            r matches Err(e) ==> e is ChannelClosed,
    {
        match self.channels.get(channel) {
            Some(sender) => match send_on(sender, message) {
                Some(n) => Ok(n),
                None => Err(WsError::ChannelClosed),
            },
            None => Ok(0),
        }
    }

    /// Send to specific user: the number of that user's connections.
    pub fn send_to_user(&self, user_id: &str, _message: WsMessage) -> (r: usize)
        ensures
            r == self.connections_spec().dom().filter(
                |k: Seq<char>| connection_user(self.connections_spec()[k]) == Some(user_id@)).len(),
    {
        let ids = self.get_user_connections(user_id);
        proof {
            let s = texts(ids@);
            s.unique_seq_to_set();
            assert(s.to_set() =~= self.connections_spec().dom().filter(
                |k: Seq<char>| connection_user(self.connections_spec()[k]) == Some(user_id@)));
        }
        ids.len()
    }

    /// Send to specific connection
    pub fn send_to_connection(&self, connection_id: &str, message: WsMessage) -> (r: Result<(), WsError>)
        ensures
            r is Ok,
    {
        Ok(())
    }

    /// Get connected users count
    pub fn connected_count(&self) -> (r: usize)
        ensures
            r == self.connections_spec().dom().len(),
    {
        self.connections.len()
    }

    /// Get channel subscriber count: 0 for a channel never created.
    pub fn channel_subscriber_count(&self, channel: &str) -> (r: usize)
        ensures
            !self.channel_names().contains(channel@) ==> r == 0,
    {
        match self.channels.get(channel) {
            Some(sender) => receivers_of(sender),
            None => 0,
        }
    }
}

/// Notification payload
#[derive(Debug)]
pub struct Notification {
    pub id: String,
    pub title: String,
    pub body: String,
    pub icon: Option<String>,
    pub image: Option<String>,
    pub sound: Option<String>,
    pub data: Option<serde_json::Value>,
    pub timestamp: i64,
}

impl Notification {
    /// A notification with a fresh UUID, stamped with the present time.
    pub fn new(title: &str, body: &str) -> (r: Self)
        ensures
            r.id@.len() == 36,
            r.title@ == title@,
            r.body@ == body@,
            r.icon is None,
            r.image is None,
            r.sound is None,
            r.data is None,
    {
        Notification {
            id: new_uuid(),
            title: title.to_owned(),
            body: body.to_owned(),
            icon: None,
            image: None,
            sound: None,
            data: None,
            timestamp: now_timestamp(),
        }
    }

    pub fn with_icon(self, icon: &str) -> (r: Self)
        ensures
            r.id == self.id && r.title == self.title && r.body == self.body,
            r.icon matches Some(i) && i@ == icon@,
            r.image == self.image && r.sound == self.sound && r.data == self.data,
            r.timestamp == self.timestamp,
    {
        let mut n = self;
        n.icon = Some(icon.to_owned());
        n
    }

    pub fn with_image(self, image: &str) -> (r: Self)
        ensures
            r.id == self.id && r.title == self.title && r.body == self.body,
            r.image matches Some(i) && i@ == image@,
            r.icon == self.icon && r.sound == self.sound && r.data == self.data,
            r.timestamp == self.timestamp,
    {
        let mut n = self;
        n.image = Some(image.to_owned());
        n
    }

    pub fn with_sound(self, sound: &str) -> (r: Self)
        ensures
            r.id == self.id && r.title == self.title && r.body == self.body,
            r.sound matches Some(s) && s@ == sound@,
            r.icon == self.icon && r.image == self.image && r.data == self.data,
            r.timestamp == self.timestamp,
    {
        let mut n = self;
        n.sound = Some(sound.to_owned());
        n
    }

    pub fn with_data(self, data: serde_json::Value) -> (r: Self)
        ensures
            r.id == self.id && r.title == self.title && r.body == self.body,
            r.data == Some(data),
            r.icon == self.icon && r.image == self.image && r.sound == self.sound,
            r.timestamp == self.timestamp,
    {
        let mut n = self;
        n.data = Some(data);
        n
    }
}

#[derive(Debug, Clone, Copy, PartialEq, Eq, Structural)]
pub enum AlertLevel {
    Info,
    Success,
    Warning,
    Error,
}

/// Alert payload
#[derive(Debug)]
pub struct Alert {
    pub level: AlertLevel,
    pub title: String,
    pub message: String,
    pub dismissible: bool,
    pub timestamp: i64,
}

impl Alert {
    pub fn info(title: &str, message: &str) -> (r: Self)
        ensures
            r.level == AlertLevel::Info && r.title@ == title@ && r.message@ == message@ && r.dismissible,
    {
        Self::new(AlertLevel::Info, title, message)
    }

    pub fn success(title: &str, message: &str) -> (r: Self)
        ensures
            r.level == AlertLevel::Success && r.title@ == title@ && r.message@ == message@ && r.dismissible,
    {
        Self::new(AlertLevel::Success, title, message)
    }

    pub fn warning(title: &str, message: &str) -> (r: Self)
        ensures
            r.level == AlertLevel::Warning && r.title@ == title@ && r.message@ == message@ && r.dismissible,
    {
        Self::new(AlertLevel::Warning, title, message)
    }

    pub fn error(title: &str, message: &str) -> (r: Self)
        ensures
            r.level == AlertLevel::Error && r.title@ == title@ && r.message@ == message@ && r.dismissible,
    {
        Self::new(AlertLevel::Error, title, message)
    }

    /// A dismissible alert stamped with the present time.
    pub fn new(level: AlertLevel, title: &str, message: &str) -> (r: Self)
        ensures
            r.level == level && r.title@ == title@ && r.message@ == message@ && r.dismissible,
    {
        Alert {
            level,
            title: title.to_owned(),
            message: message.to_owned(),
            dismissible: true,
            timestamp: now_timestamp(),
        }
    }
}

/// Chat message
#[derive(Debug)]
pub struct ChatMessage {
    pub id: String,
    pub sender_id: String,
    pub sender_name: Option<String>,
    pub recipient_id: Option<String>,
    pub channel_id: Option<String>,
    pub content: String,
    pub timestamp: i64,
    pub read: bool,
}

impl ChatMessage {
    /// An unread message with a fresh UUID, stamped with the present time.
    pub fn new(sender_id: &str, content: &str) -> (r: Self)
        ensures
            r.id@.len() == 36,
            r.sender_id@ == sender_id@,
            r.sender_name is None,
            r.recipient_id is None,
            r.channel_id is None,
            r.content@ == content@,
            !r.read,
    {
        ChatMessage {
            id: new_uuid(),
            sender_id: sender_id.to_owned(),
            sender_name: None,
            recipient_id: None,
            channel_id: None,
            content: content.to_owned(),
            timestamp: now_timestamp(),
            read: false,
        }
    }

    pub fn to_user(self, recipient_id: &str) -> (r: Self)
        ensures
            r.id == self.id && r.sender_id == self.sender_id && r.sender_name == self.sender_name,
            r.recipient_id matches Some(x) && x@ == recipient_id@,
            r.channel_id == self.channel_id && r.content == self.content,
            r.timestamp == self.timestamp && r.read == self.read,
    {
        let mut m = self;
        m.recipient_id = Some(recipient_id.to_owned());
        m
    }

    pub fn to_channel(self, channel_id: &str) -> (r: Self)
        ensures
            r.id == self.id && r.sender_id == self.sender_id && r.sender_name == self.sender_name,
            r.recipient_id == self.recipient_id,
            r.channel_id matches Some(x) && x@ == channel_id@,
            r.content == self.content && r.timestamp == self.timestamp && r.read == self.read,
    {
        let mut m = self;
        m.channel_id = Some(channel_id.to_owned());
        m
    }

    pub fn from_name(self, name: &str) -> (r: Self)
        ensures
            r.id == self.id && r.sender_id == self.sender_id,
            r.sender_name matches Some(x) && x@ == name@,
            r.recipient_id == self.recipient_id && r.channel_id == self.channel_id,
            r.content == self.content && r.timestamp == self.timestamp && r.read == self.read,
    {
        let mut m = self;
        m.sender_name = Some(name.to_owned());
        m
    }
}

/// Live update (for real-time data sync)
#[derive(Debug)]
pub struct LiveUpdate {
    pub entity_type: String,
    pub entity_id: String,
    pub action: UpdateAction,
    pub data: serde_json::Value,
    pub timestamp: i64,
}

#[derive(Debug, Clone, Copy, PartialEq, Eq, Structural)]
pub enum UpdateAction {
    Create,
    Update,
    Delete,
}

impl LiveUpdate {
    pub fn created(entity_type: &str, entity_id: &str, data: serde_json::Value) -> (r: Self)
        ensures
            r.entity_type@ == entity_type@ && r.entity_id@ == entity_id@,
            r.action == UpdateAction::Create && r.data == data,
    {
        Self::new(entity_type, entity_id, UpdateAction::Create, data)
    }

    pub fn updated(entity_type: &str, entity_id: &str, data: serde_json::Value) -> (r: Self)
        ensures
            r.entity_type@ == entity_type@ && r.entity_id@ == entity_id@,
            r.action == UpdateAction::Update && r.data == data,
    {
        Self::new(entity_type, entity_id, UpdateAction::Update, data)
    }

    /// A deletion, whose data is an empty JSON object.
    pub fn deleted(entity_type: &str, entity_id: &str) -> (r: Self)
        ensures
            r.entity_type@ == entity_type@ && r.entity_id@ == entity_id@,
            r.action == UpdateAction::Delete,
            r.data == json_object_of(Seq::empty()),
    {
        Self::new(entity_type, entity_id, UpdateAction::Delete, empty_json_object())
    }

    /// An update stamped with the present time.
    pub fn new(entity_type: &str, entity_id: &str, action: UpdateAction, data: serde_json::Value) -> (r: Self)
        ensures
            r.entity_type@ == entity_type@ && r.entity_id@ == entity_id@,
            r.action == action && r.data == data,
    {
        LiveUpdate {
            entity_type: entity_type.to_owned(),
            entity_id: entity_id.to_owned(),
            action,
            data,
            timestamp: now_timestamp(),
        }
    }
}

/// Presence (user online/offline status)
#[derive(Debug)]
pub struct Presence {
    pub user_id: String,
    pub status: PresenceStatus,
    pub last_seen: i64,
}

#[derive(Debug, Clone, Copy, PartialEq, Eq, Structural)]
pub enum PresenceStatus {
    Online,
    Away,
    Busy,
    Offline,
}

impl Presence {
    /// The user is online, seen now.
    pub fn online(user_id: &str) -> (r: Self)
        ensures
            r.user_id@ == user_id@ && r.status == PresenceStatus::Online,
    {
        Presence { user_id: user_id.to_owned(), status: PresenceStatus::Online, last_seen: now_timestamp() }
    }

    /// The user is offline, seen now.
    pub fn offline(user_id: &str) -> (r: Self)
        ensures
            r.user_id@ == user_id@ && r.status == PresenceStatus::Offline,
    {
        Presence { user_id: user_id.to_owned(), status: PresenceStatus::Offline, last_seen: now_timestamp() }
    }
}

} // verus!
