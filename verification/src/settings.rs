use vstd::prelude::*;
use crate::kafka_source;

verus! {

/// What the service reads from its configuration file.
pub struct Config {
    pub brokers: Vec<String>,
    pub group: String,
    pub topic: String,
    pub webhook_url: String,
    pub redis_uri: String,
}

impl Config {
    /// The consumer settings: the configured brokers and group, reading the
    /// one configured topic.
    pub fn kafka_config(&self) -> (cfg: kafka_source::Config)
        ensures
            cfg.spec_brokers() == self.brokers@,
            cfg.spec_group() == self.group@,
            cfg.spec_topics().len() == 1,
            cfg.spec_topics()[0]@ == self.topic@,
            cfg.spec_offset_storage() == kafka_source::OffsetStorage::Kafka,
            cfg.spec_fallback_offset() == kafka_source::FallbackOffset::Earliest,
    {
        let mut topics: Vec<String> = Vec::new();
        topics.push(self.topic.clone());
        kafka_source::Config::new(self.brokers.clone(), self.group.clone(), topics)
    }
}

} // verus!
