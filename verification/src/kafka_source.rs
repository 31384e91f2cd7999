use vstd::prelude::*;
use crate::message::{TxMessage, is_uuid_v4_text};

verus! {

/// One record read from a Kafka topic.
#[derive(Clone, Debug, PartialEq, Eq)]
pub struct KafkaMessage {
    pub topic: String,
    pub offset: i64,
    pub key: Vec<u8>,
    pub body: Vec<u8>,
}

/// Where a consumer group keeps its committed offsets.
#[derive(Clone, Copy, Debug, PartialEq, Eq, Structural)]
pub enum OffsetStorage {
    Zookeeper,
    Kafka,
}

/// Where a consumer starts reading when its group has no committed offset.
#[derive(Clone, Copy, Debug, PartialEq, Eq, Structural)]
pub enum FallbackOffset {
    Earliest,
    Latest,
    /// The first record at or after this Unix time, in milliseconds.
    ByTime(i64),
}

/// How to connect to Kafka and what to consume.
pub struct Config {
    brokers: Vec<String>,
    group: String,
    topics: Vec<String>,
    offset_storage: OffsetStorage,
    fallback_offset: FallbackOffset,
}

impl Config {
    pub closed spec fn spec_brokers(&self) -> Seq<String> {
        self.brokers@
    }

    pub closed spec fn spec_group(&self) -> Seq<char> {
        self.group@
    }

    pub closed spec fn spec_topics(&self) -> Seq<String> {
        self.topics@
    }

    pub closed spec fn spec_offset_storage(&self) -> OffsetStorage {
        self.offset_storage
    }

    pub closed spec fn spec_fallback_offset(&self) -> FallbackOffset {
        self.fallback_offset
    }

    /// A configuration for the given brokers, group and topics that keeps
    /// offsets in Kafka and starts from the earliest record when the group has
    /// none committed.
    pub fn new(brokers: Vec<String>, group: String, topics: Vec<String>) -> (cfg: Self)
        ensures
            cfg.spec_brokers() == brokers@,
            cfg.spec_group() == group@,
            cfg.spec_topics() == topics@,
            cfg.spec_offset_storage() == OffsetStorage::Kafka,
            cfg.spec_fallback_offset() == FallbackOffset::Earliest,
    {
        Self {
            brokers,
            group,
            topics,
            offset_storage: OffsetStorage::Kafka,
            fallback_offset: FallbackOffset::Earliest,
        }
    }

    pub fn brokers(&self) -> (r: &Vec<String>)
        ensures
            r@ == self.spec_brokers(),
    {
        &self.brokers
    }

    pub fn group(&self) -> (r: &String)
        ensures
            r@ == self.spec_group(),
    {
        &self.group
    }

    pub fn topics(&self) -> (r: &Vec<String>)
        ensures
            r@ == self.spec_topics(),
    {
        &self.topics
    }

    pub fn offset_storage(&self) -> (r: OffsetStorage)
        ensures
            r == self.spec_offset_storage(),
    {
        self.offset_storage
    }

    pub fn fallback_offset(&self) -> (r: FallbackOffset)
        ensures
            r == self.spec_fallback_offset(),
    {
        self.fallback_offset
    }
}

/// A record as the consumer hands it out, before it is tagged with its topic.
pub struct FetchedMessage {
    pub offset: i64,
    pub key: Vec<u8>,
    pub value: Vec<u8>,
}

/// `km` is the record `f` read from `topic`.
pub open spec fn is_record_of(km: KafkaMessage, topic: Seq<char>, f: FetchedMessage) -> bool {
    &&& km.topic@ == topic
    &&& km.offset == f.offset
    &&& km.key@ == f.key@
    &&& km.body@ == f.value@
}

/// Turns the records of one fetched message set of `topic` into messages for
/// the next stage, in order, each under a transaction id of its own.
pub fn wrap_fetched(topic: &String, fetched: Vec<FetchedMessage>) -> (wrapped: Vec<TxMessage<KafkaMessage>>)
    ensures
        wrapped.len() == fetched.len(),
        forall|i: int|
            0 <= i < fetched.len() ==> is_record_of(#[trigger] wrapped@[i].msg, topic@, fetched@[i]),
        forall|i: int| 0 <= i < fetched.len() ==> is_uuid_v4_text(#[trigger] wrapped@[i].id@),
{
    let mut wrapped: Vec<TxMessage<KafkaMessage>> = Vec::new();
    let ghost all = fetched@;
    for f in it: fetched
        invariant
            it.seq() == all,
            wrapped.len() == it.index(),
            forall|i: int|
                0 <= i < it.index() ==> is_record_of(#[trigger] wrapped@[i].msg, topic@, all[i]),
            forall|i: int| 0 <= i < it.index() ==> is_uuid_v4_text(#[trigger] wrapped@[i].id@),
    {
        let km = KafkaMessage { topic: topic.clone(), offset: f.offset, key: f.key, body: f.value };
        wrapped.push(TxMessage::new(km));
    }
    wrapped
}

} // verus!
