//! The configuration as the decision logic reads it.

use crate::address::Address;
use vstd::prelude::*;

verus! {

/// The settings of one provider entry: text values under text keys. What a
/// backend needs, it looks up here by key.
#[derive(Clone, Debug, PartialEq, Eq)]
pub struct ProviderConfig {
    pub settings: Vec<(String, String)>,
}

/// One service: the record to keep up to date and the host part it has.
#[derive(Clone, Debug, PartialEq, Eq)]
pub struct ServiceConfig {
    /// Only the last four segments are read.
    pub suffix: Address,
    /// The label of the record.
    pub name: String,
    /// The zone that holds the record.
    pub fqdn: String,
    /// The time to live of the record, in seconds.
    pub ttl: u32,
    /// The provider to use; the default one where this is `None`.
    pub provider: Option<String>,
}

/// The whole configuration. Services and providers are listed under their
/// names, in the order in which they are processed.
#[derive(Clone, Debug, PartialEq, Eq)]
pub struct Config {
    /// The address of the service that reports the caller's public address.
    pub query_server: String,
    pub default_provider: Option<String>,
    pub service: Vec<(String, ServiceConfig)>,
    pub provider: Vec<(String, ProviderConfig)>,
}

/// The value of the first entry of `entries` under `key`.
pub open spec fn setting(entries: Seq<(String, String)>, key: Seq<char>) -> Option<Seq<char>>
    decreases entries.len(),
{
    if entries.len() == 0 {
        None
    } else if entries[0].0@ == key {
        Some(entries[0].1@)
    } else {
        setting(entries.drop_first(), key)
    }
}

impl ProviderConfig {
    /// The value of the first setting under `key`, if there is one.
    pub fn get(&self, key: &str) -> (value: Option<String>)
        ensures
            match value {
                Some(text) => setting(self.settings@, key@) == Some(text@),
                None => setting(self.settings@, key@) is None,
            },
    {
        let wanted: String = key.to_owned();
        let mut index: usize = 0;
        assert(self.settings@.skip(0) =~= self.settings@);
        while index < self.settings.len()
            invariant
                index <= self.settings.len(),
                wanted@ == key@,
                setting(self.settings@, key@) == setting(self.settings@.skip(index as int), key@),
            decreases self.settings.len() - index,
        {
            proof {
                assert(self.settings@.skip(index as int).drop_first() =~= self.settings@.skip(
                    index as int + 1,
                ));
            }
            if self.settings[index].0 == wanted {
                return Some(self.settings[index].1.clone());
            }
            index += 1;
        }
        None
    }
}

/// The address of the public service that is asked where `query_server` is
/// not configured.
pub fn default_query_server() -> (url: String)
    ensures
        url@ == "https://ifconfig.co"@,
{
    "https://ifconfig.co".to_owned()
}

} // verus!
