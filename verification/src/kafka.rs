//! The event side channel: its configuration, its message and the message's
//! wire text. The broker client itself is an outside service.

use crate::codec::{decimal, decimal_text, json_field};
use crate::json::{
    is_null, json_document, json_member, json_null, json_quoted, json_text, member,
    parse_document, quote, text_of,
};
use crate::schemas::text_view;
use serde_json::Value;
use vstd::prelude::*;

verus! {

/// What goes wrong on the side channel.
#[derive(Debug, PartialEq, Eq)]
pub enum KafkaError {
    /// The client library could not be set up; its own description.
    RDKafka(String),
    /// A broker operation failed; the client library's description.
    Kafka(String),
    /// A payload is no message.
    Serialization(String),
    /// The delivery was cancelled or its channel closed.
    CanceledMessage(String),
    /// A record without a payload arrived on this topic.
    EmptyPayload { topic: String },
    /// The configuration is unusable.
    InvalidConfig(String),
}

pub type KafkaResult<T> = Result<T, KafkaError>;

/// The HTTP status that reports `error`.
pub open spec fn kafka_status(error: KafkaError) -> u16 {
    match error {
        KafkaError::RDKafka(_) => 500,
        KafkaError::Kafka(_) => 500,
        KafkaError::Serialization(_) => 400,
        KafkaError::CanceledMessage(_) => 400,
        KafkaError::EmptyPayload { .. } => 400,
        KafkaError::InvalidConfig(_) => 409,
    }
}

/// The text that reports `error` to a client: the description that it
/// carries, or the topic of an empty payload.
pub open spec fn kafka_detail(error: KafkaError) -> Seq<char> {
    match error {
        KafkaError::RDKafka(e) => e@,
        KafkaError::Kafka(e) => e@,
        KafkaError::Serialization(e) => e@,
        KafkaError::CanceledMessage(e) => e@,
        KafkaError::EmptyPayload { topic } => topic@,
        KafkaError::InvalidConfig(e) => e@,
    }
}

impl KafkaError {
    /// The HTTP status that reports this error: a server error for client and
    /// broker failures, a conflict for a bad configuration, a bad request for
    /// the rest.
    pub fn status(&self) -> (code: u16)
        ensures
            code == kafka_status(*self),
    {
        match self {
            KafkaError::RDKafka(_) => 500,
            KafkaError::Kafka(_) => 500,
            KafkaError::Serialization(_) => 400,
            KafkaError::CanceledMessage(_) => 400,
            KafkaError::EmptyPayload { .. } => 400,
            KafkaError::InvalidConfig(_) => 409,
        }
    }

    /// The text that reports this error to a client.
    pub fn detail(&self) -> (text: &str)
        ensures
            text@ == kafka_detail(*self),
    {
        match self {
            KafkaError::RDKafka(e) => e.as_str(),
            KafkaError::Kafka(e) => e.as_str(),
            KafkaError::Serialization(e) => e.as_str(),
            KafkaError::CanceledMessage(e) => e.as_str(),
            KafkaError::EmptyPayload { topic } => topic.as_str(),
            KafkaError::InvalidConfig(e) => e.as_str(),
        }
    }
}

/// How much the client library logs, in syslog's levels.
#[derive(Debug, Clone, Copy, PartialEq, Eq, Structural)]
pub enum LogLevel {
    Emerg,
    Alert,
    Critical,
    Error,
    Warning,
    Notice,
    Info,
    Debug,
}

impl LogLevel {
    /// The syslog number of the level, from 0 for `Emerg` to 7 for `Debug`.
    pub fn severity(&self) -> (number: u8)
        ensures
            number == match self {
                LogLevel::Emerg => 0u8,
                LogLevel::Alert => 1u8,
                LogLevel::Critical => 2u8,
                LogLevel::Error => 3u8,
                LogLevel::Warning => 4u8,
                LogLevel::Notice => 5u8,
                LogLevel::Info => 6u8,
                LogLevel::Debug => 7u8,
            },
    {
        match self {
            LogLevel::Emerg => 0,
            LogLevel::Alert => 1,
            LogLevel::Critical => 2,
            LogLevel::Error => 3,
            LogLevel::Warning => 4,
            LogLevel::Notice => 5,
            LogLevel::Info => 6,
            LogLevel::Debug => 7,
        }
    }
}

/// What a consumer is configured with.
#[derive(Debug, Clone)]
pub struct ConsumerConfig {
    pub brokers: String,
    pub group_id: String,
    pub input_topic: String,
    pub log_level: LogLevel,
}

/// What a producer is configured with.
#[derive(Debug, Clone)]
pub struct ProducerConfig {
    pub brokers: String,
    pub topic: String,
}

/// What is wrong with a configuration whose broker list is `brokers` and
/// whose second required setting is `second`, if anything. Both complaints
/// about the second setting name the group id.
pub open spec fn config_fault(brokers: Seq<char>, second: Seq<char>) -> Option<Seq<char>> {
    if brokers.len() == 0 {
        Some("Brokers cannot be empty"@)
    } else if second.len() == 0 {
        Some("Group ID cannot be empty"@)
    } else {
        None
    }
}

impl ConsumerConfig {
    /// A consumer configuration. The broker list and the group id must not
    /// be empty.
    pub fn new(brokers: &str, group_id: &str, input_topic: &str, log_level: LogLevel) -> (config:
        KafkaResult<ConsumerConfig>)
        ensures
            match config_fault(brokers@, group_id@) {
                Some(fault) => config matches Err(KafkaError::InvalidConfig(text)) && text@
                    == fault,
                None => config matches Ok(made) && made.brokers@ == brokers@ && made.group_id@
                    == group_id@ && made.input_topic@ == input_topic@ && made.log_level
                    == log_level,
            },
    {
        if brokers.is_empty() {
            return Err(KafkaError::InvalidConfig(String::from_str("Brokers cannot be empty")));
        }
        if group_id.is_empty() {
            return Err(KafkaError::InvalidConfig(String::from_str("Group ID cannot be empty")));
        }
        Ok(
            ConsumerConfig {
                brokers: brokers.to_owned(),
                group_id: group_id.to_owned(),
                input_topic: input_topic.to_owned(),
                log_level,
            },
        )
    }
}

impl ProducerConfig {
    /// A producer configuration. The broker list and the topic must not be
    /// empty.
    pub fn new(brokers: &str, topic: &str) -> (config: KafkaResult<ProducerConfig>)
        ensures
            match config_fault(brokers@, topic@) {
                Some(fault) => config matches Err(KafkaError::InvalidConfig(text)) && text@
                    == fault,
                None => config matches Ok(made) && made.brokers@ == brokers@ && made.topic@
                    == topic@,
            },
    {
        if brokers.is_empty() {
            return Err(KafkaError::InvalidConfig(String::from_str("Brokers cannot be empty")));
        }
        if topic.is_empty() {
            return Err(KafkaError::InvalidConfig(String::from_str("Group ID cannot be empty")));
        }
        Ok(ProducerConfig { brokers: brokers.to_owned(), topic: topic.to_owned() })
    }
}

/// How often a producer retries a delivery unless told otherwise.
pub const DEFAULT_RETRY_ATTEMPTS: u32 = 3;

/// One setting of the client library: its name and its value.
#[derive(Debug, PartialEq, Eq)]
pub struct Setting {
    pub name: String,
    pub value: String,
}

/// The mathematical model of a setting.
pub open spec fn setting_view(setting: Setting) -> (Seq<char>, Seq<char>) {
    (setting.name@, setting.value@)
}

/// The views of a list of settings.
pub open spec fn setting_views(settings: Seq<Setting>) -> Seq<(Seq<char>, Seq<char>)> {
    Seq::new(settings.len(), |i: int| setting_view(settings[i]))
}

fn setting(name: &str, value: &str) -> (made: Setting)
    ensures
        setting_view(made) == (name@, value@),
{
    Setting { name: name.to_owned(), value: value.to_owned() }
}

/// The settings that a producer hands to the client library: where the
/// brokers are, a five-second message timeout, topics created on demand,
/// and the number of retries.
pub fn producer_settings(config: &ProducerConfig, retry_attempts: u32) -> (settings: Vec<Setting>)
    ensures
        setting_views(settings@) == seq![
            ("bootstrap.servers"@, config.brokers@),
            ("message.timeout.ms"@, "5000"@),
            ("allow.auto.create.topics"@, "true"@),
            ("retries"@, decimal(retry_attempts as nat)),
        ],
{
    let mut settings: Vec<Setting> = Vec::new();
    settings.push(setting("bootstrap.servers", config.brokers.as_str()));
    settings.push(setting("message.timeout.ms", "5000"));
    settings.push(setting("allow.auto.create.topics", "true"));
    let retries = decimal_text(retry_attempts as u64);
    settings.push(setting("retries", retries.as_str()));
    assert(setting_views(settings@) =~= seq![
        ("bootstrap.servers"@, config.brokers@),
        ("message.timeout.ms"@, "5000"@),
        ("allow.auto.create.topics"@, "true"@),
        ("retries"@, decimal(retry_attempts as nat)),
    ]);
    settings
}

/// The settings that a consumer hands to the client library: its group and
/// brokers, no end-of-partition events, a six-second session timeout,
/// offsets committed every five seconds but stored by hand, and reading from
/// the earliest offset where none is stored.
pub fn consumer_settings(config: &ConsumerConfig) -> (settings: Vec<Setting>)
    ensures
        setting_views(settings@) == seq![
            ("group.id"@, config.group_id@),
            ("bootstrap.servers"@, config.brokers@),
            ("enable.partition.eof"@, "false"@),
            ("session.timeout.ms"@, "6000"@),
            ("enable.auto.commit"@, "true"@),
            ("auto.commit.interval.ms"@, "5000"@),
            ("enable.auto.offset.store"@, "false"@),
            ("auto.offset.reset"@, "earliest"@),
        ],
{
    let mut settings: Vec<Setting> = Vec::new();
    settings.push(setting("group.id", config.group_id.as_str()));
    settings.push(setting("bootstrap.servers", config.brokers.as_str()));
    settings.push(setting("enable.partition.eof", "false"));
    settings.push(setting("session.timeout.ms", "6000"));
    settings.push(setting("enable.auto.commit", "true"));
    settings.push(setting("auto.commit.interval.ms", "5000"));
    settings.push(setting("enable.auto.offset.store", "false"));
    settings.push(setting("auto.offset.reset", "earliest"));
    assert(setting_views(settings@) =~= seq![
        ("group.id"@, config.group_id@),
        ("bootstrap.servers"@, config.brokers@),
        ("enable.partition.eof"@, "false"@),
        ("session.timeout.ms"@, "6000"@),
        ("enable.auto.commit"@, "true"@),
        ("auto.commit.interval.ms"@, "5000"@),
        ("enable.auto.offset.store"@, "false"@),
        ("auto.offset.reset"@, "earliest"@),
    ]);
    settings
}

/// What happened to the thing that a message is about.
#[derive(Debug, Clone, Copy, PartialEq, Eq, Structural)]
pub enum Action {
    Create,
    Update,
    Delete,
}

/// The lower-case name of an action, as it stands on the wire.
pub open spec fn action_name(action: Action) -> Seq<char> {
    match action {
        Action::Create => "create"@,
        Action::Update => "update"@,
        Action::Delete => "delete"@,
    }
}

/// The action that `name` names, if any.
pub open spec fn action_named(name: Seq<char>) -> Option<Action> {
    if name == "create"@ {
        Some(Action::Create)
    } else if name == "update"@ {
        Some(Action::Update)
    } else if name == "delete"@ {
        Some(Action::Delete)
    } else {
        None
    }
}

impl Action {
    /// The lower-case name of the action.
    pub fn name(&self) -> (name: &'static str)
        ensures
            name@ == action_name(*self),
    {
        match self {
            Action::Create => "create",
            Action::Update => "update",
            Action::Delete => "delete",
        }
    }

    /// The action with this lower-case name.
    pub fn named(name: &str) -> (action: Option<Action>)
        ensures
            action == action_named(name@),
    {
        let name = name.to_owned();
        if name == String::from_str("create") {
            Some(Action::Create)
        } else if name == String::from_str("update") {
            Some(Action::Update)
        } else if name == String::from_str("delete") {
            Some(Action::Delete)
        } else {
            None
        }
    }

    /// The action as JSON text: its name as a string literal.
    pub fn to_json(&self) -> (text: String)
        ensures
            text@ == json_quoted(action_name(*self)),
    {
        quote(self.name())
    }
}

/// A message on the side channel: who did what, and to what.
#[derive(Debug, Clone, PartialEq, Eq)]
pub struct KafkaMessage<T = String> {
    pub user_id: String,
    pub action: Action,
    pub data: Option<T>,
}

impl<T> KafkaMessage<T> {
    /// A message with these three parts.
    pub fn new(user_id: String, action: Action, data: Option<T>) -> (message: Self)
        ensures
            message.user_id == user_id,
            message.action == action,
            message.data == data,
    {
        Self { user_id, action, data }
    }
}

/// The mathematical model of a message that carries text.
pub struct MessageView {
    pub user_id: Seq<char>,
    pub action: Action,
    pub data: Option<Seq<char>>,
}

impl View for KafkaMessage<String> {
    type V = MessageView;

    open spec fn view(&self) -> MessageView {
        MessageView { user_id: self.user_id@, action: self.action, data: text_view(self.data) }
    }
}

/// The wire text of a message: a JSON object with `user_id`, `action` and,
/// where there is any, `data`.
pub open spec fn message_text(message: MessageView) -> Seq<char> {
    "{\"user_id\":"@ + json_quoted(message.user_id) + ",\"action\":"@ + json_quoted(
        action_name(message.action),
    ) + (match message.data {
        Some(data) => ",\"data\":"@ + json_quoted(data),
        None => Seq::empty(),
    }) + "}"@
}

/// Writes a message as JSON text.
pub fn encode_message(message: &KafkaMessage<String>) -> (text: String)
    ensures
        text@ == message_text(message@),
{
    let mut text = String::from_str("{\"user_id\":");
    text.append(quote(message.user_id.as_str()).as_str());
    text.append(",\"action\":");
    text.append(message.action.to_json().as_str());
    let ghost head = text@;
    match &message.data {
        Some(data) => {
            text.append(",\"data\":");
            text.append(quote(data.as_str()).as_str());
            assert(text@ =~= head + (",\"data\":"@ + json_quoted(data@)));
        },
        None => {
            assert(text@ =~= head + Seq::<char>::empty());
        },
    }
    text.append("}");
    text
}

/// What the member `data` of `document` holds: no text where the member is
/// missing or `null`, its text where it is a string; the outer `None` where
/// it is anything else.
pub open spec fn data_of(document: Value) -> Option<Option<Seq<char>>> {
    match json_member(document, "data"@) {
        None => Some(None),
        Some(value) => if json_null(value) {
            Some(None)
        } else {
            match json_text(value) {
                Some(text) => Some(Some(text)),
                None => None,
            }
        },
    }
}

/// The message that `document` denotes: an object whose `user_id` is a
/// string, whose `action` names an action, and whose `data` is a string,
/// `null` or missing.
pub open spec fn message_of(document: Value) -> Option<MessageView> {
    match (json_field(document, "user_id"@), json_field(document, "action"@), data_of(document)) {
        (Some(user_id), Some(name), Some(data)) => match action_named(name) {
            Some(action) => Some(MessageView { user_id, action, data }),
            None => None,
        },
        _ => None,
    }
}

/// The message that the JSON text `text` denotes, if any.
pub open spec fn message_decoded(text: Seq<char>) -> Option<MessageView> {
    match json_document(text) {
        Some(document) => message_of(document),
        None => None,
    }
}

fn string_member(document: &Value, key: &str) -> (text: Option<String>)
    ensures
        text_view(text) == json_field(*document, key@),
{
    match member(document, key) {
        Some(value) => text_of(&value),
        None => None,
    }
}

fn data_member(document: &Value) -> (data: Option<Option<String>>)
    ensures
        data_view(data) == data_of(*document),
{
    match member(document, "data") {
        None => Some(None),
        Some(value) => {
            if is_null(&value) {
                Some(None)
            } else {
                match text_of(&value) {
                    Some(text) => Some(Some(text)),
                    None => None,
                }
            }
        },
    }
}

/// Why the members of a payload make no message, if they make none: the
/// first of `user_id`, `action` and `data` that is missing or of the wrong
/// kind, or an action that is none.
pub open spec fn member_fault(
    user_id: Option<Seq<char>>,
    action: Option<Seq<char>>,
    data: Option<Option<Seq<char>>>,
) -> Option<Seq<char>> {
    if user_id is None {
        Some("missing field `user_id`"@)
    } else if action is None {
        Some("missing field `action`"@)
    } else if data is None {
        Some("invalid field `data`"@)
    } else if action_named(action->0) is None {
        Some("unknown action"@)
    } else {
        None
    }
}

/// Why the JSON text `text` denotes no message, if it denotes none.
pub open spec fn text_fault(text: Seq<char>) -> Option<Seq<char>> {
    match json_document(text) {
        Some(document) => member_fault(
            json_field(document, "user_id"@),
            json_field(document, "action"@),
            data_of(document),
        ),
        None => Some("invalid JSON"@),
    }
}

/// The view of an optional optional text.
pub open spec fn data_view(data: Option<Option<String>>) -> Option<Option<Seq<char>>> {
    match data {
        Some(inner) => Some(text_view(inner)),
        None => None,
    }
}

/// Builds the message from what a payload's members hold: see `message_of`.
/// Members that make no message are a serialization error that says why.
pub fn assemble_message(
    user_id: Option<String>,
    action: Option<String>,
    data: Option<Option<String>>,
) -> (message: KafkaResult<KafkaMessage<String>>)
    ensures
        match member_fault(text_view(user_id), text_view(action), data_view(data)) {
            None => message matches Ok(made) && made@ == (MessageView {
                user_id: user_id->0@,
                action: action_named(action->0@)->0,
                data: text_view(data->0),
            }),
            Some(fault) => message matches Err(KafkaError::Serialization(reason)) && reason@
                == fault,
        },
{
    match (user_id, action, data) {
        (Some(user_id), Some(name), Some(data)) => match Action::named(name.as_str()) {
            Some(action) => Ok(KafkaMessage::new(user_id, action, data)),
            None => Err(KafkaError::Serialization(String::from_str("unknown action"))),
        },
        (None, _, _) => Err(KafkaError::Serialization(String::from_str("missing field `user_id`"))),
        (_, None, _) => Err(KafkaError::Serialization(String::from_str("missing field `action`"))),
        (_, _, None) => Err(KafkaError::Serialization(String::from_str("invalid field `data`"))),
    }
}

/// Reads a message from JSON text. Text that denotes no message is a
/// serialization error that says why.
pub fn decode_message(text: &str) -> (message: KafkaResult<KafkaMessage<String>>)
    ensures
        match text_fault(text@) {
            None => message matches Ok(made) && Some(made@) == message_decoded(text@),
            Some(fault) => message matches Err(KafkaError::Serialization(reason)) && reason@
                == fault,
        },
        text_fault(text@) is None <==> message_decoded(text@) is Some,
{
    match parse_document(text) {
        None => Err(KafkaError::Serialization(String::from_str("invalid JSON"))),
        Some(document) => {
            let user_id = string_member(&document, "user_id");
            let action = string_member(&document, "action");
            let data = data_member(&document);
            assemble_message(user_id, action, data)
        },
    }
}

/// Reads the message of a record that arrived on `topic`. A record without
/// a payload is an error that names the topic.
pub fn received_message(topic: &str, payload: Option<&str>) -> (message: KafkaResult<
    KafkaMessage<String>,
>)
    ensures
        match payload {
            None => message matches Err(KafkaError::EmptyPayload { topic: named }) && named@
                == topic@,
            Some(text) => match text_fault(text@) {
                None => message matches Ok(made) && Some(made@) == message_decoded(text@),
                Some(fault) => message matches Err(KafkaError::Serialization(reason)) && reason@
                    == fault,
            },
        },
{
    match payload {
        None => Err(KafkaError::EmptyPayload { topic: topic.to_owned() }),
        Some(text) => decode_message(text),
    }
}

} // verus!
