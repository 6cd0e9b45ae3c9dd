//! What is configured for one zone.

use vstd::prelude::*;
use vstd::string::StringExecFns;
use crate::credential_provider::AwsCredentials;
use crate::address::Family;

verus! {

/// One configured zone: which record to keep, for which families, how often.
#[derive(Clone)]
pub struct ZoneConfig {
    pub update_frequency_minutes: u64,
    pub hosted_zone_name: String,
    pub record_name: String,
    pub enable_ipv4: bool,
    pub enable_ipv6: bool,
    pub provider_region: String,
    pub credentials: AwsCredentials,
    pub ttl_seconds: i64,
}

/// The full name of a record: its own name, a dot, the hosted zone's name.
pub open spec fn qualified(record_name: Seq<char>, hosted_zone_name: Seq<char>) -> Seq<char> {
    record_name + seq!['.'] + hosted_zone_name
}

/// The seconds between two cycles for a frequency in minutes, where the
/// frequency is positive and the product fits in 64 bits.
pub open spec fn period_of(minutes: u64) -> Option<u64> {
    if 0 < minutes && minutes * 60 <= u64::MAX {
        Some((minutes * 60) as u64)
    } else {
        None
    }
}

impl ZoneConfig {
    /// The name of the record that this zone keeps.
    pub open spec fn spec_effective_name(&self) -> Seq<char> {
        qualified(self.record_name@, self.hosted_zone_name@)
    }

    pub open spec fn enabled(&self, family: Family) -> bool {
        match family {
            Family::V4 => self.enable_ipv4,
            Family::V6 => self.enable_ipv6,
        }
    }

    pub fn is_enabled(&self, family: Family) -> (r: bool)
        ensures
            r == self.enabled(family),
    {
        match family {
            Family::V4 => self.enable_ipv4,
            Family::V6 => self.enable_ipv6,
        }
    }

    pub fn effective_name(&self) -> (r: String)
        ensures
            r@ == self.spec_effective_name(),
    {
        proof {
            reveal_strlit(".");
        }
        let mut out = String::from_str(self.record_name.as_str());
        out.append(".");
        out.append(self.hosted_zone_name.as_str());
        assert("."@ =~= seq!['.']);
        assert(out@ =~= self.spec_effective_name());
        out
    }

    /// The seconds to wait between two cycles, or `None` where the configured
    /// frequency is zero or too large to express in seconds.
    pub fn period_secs(&self) -> (r: Option<u64>)
        ensures
            r == period_of(self.update_frequency_minutes),
    {
        if self.update_frequency_minutes == 0 {
            None
        } else {
            self.update_frequency_minutes.checked_mul(60)
        }
    }
}

} // verus!
