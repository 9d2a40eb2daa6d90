//! Device profiles and their lookup by hardware address.
use vstd::prelude::*;

use crate::indicator::IndicatorColor;
use crate::text::{hex_pair, push_char, push_hex_byte};

verus! {

/// The profile of one device.
#[derive(Clone, Debug)]
pub struct SensorInfo {
    pub name: String,
    pub is_led_disabled: bool,
    pub interval_in_seconds: u64,
}

impl SensorInfo {
    /// A copy of the profile, equal to it field by field.
    pub fn duplicate(&self) -> (r: SensorInfo)
        ensures
            r == *self,
    {
        SensorInfo {
            name: self.name.clone(),
            is_led_disabled: self.is_led_disabled,
            interval_in_seconds: self.interval_in_seconds,
        }
    }
}

/// The device table: canonical hardware addresses with their profiles.
/// A later entry for an address replaces an earlier one.
#[derive(Clone, Debug)]
pub struct SensorConfig {
    pub sensors: Vec<(String, SensorInfo)>,
}

/// Why no profile could be resolved at startup.
#[derive(Clone, Copy, Debug, PartialEq, Eq, Structural)]
pub enum ConfigError {
    /// The device table holds no entry for this node's address.
    UnknownDevice,
    /// The device table could not be read.
    MalformedTable,
}

/// The canonical text of a hardware address: six upper-case hex pairs
/// separated by colons.
pub open spec fn mac_text(m: Seq<u8>) -> Seq<char> {
    hex_pair(m[0]) + seq![':'] + hex_pair(m[1]) + seq![':'] + hex_pair(m[2]) + seq![':']
        + hex_pair(m[3]) + seq![':'] + hex_pair(m[4]) + seq![':'] + hex_pair(m[5])
}

/// The profile that the table gives for `key`: that of the last entry with
/// this address, if any.
pub open spec fn lookup_in(entries: Seq<(String, SensorInfo)>, key: Seq<char>) -> Option<SensorInfo>
    decreases entries.len(),
{
    if entries.len() == 0 {
        None
    } else if entries.last().0@ == key {
        Some(entries.last().1)
    } else {
        lookup_in(entries.drop_last(), key)
    }
}

/// What resolving a hardware address against a table gives.
pub open spec fn resolve(config: SensorConfig, mac: Seq<u8>) -> Result<SensorInfo, ConfigError> {
    match lookup_in(config.sensors@, mac_text(mac)) {
        Some(info) => Ok(info),
        None => Err(ConfigError::UnknownDevice),
    }
}

/// The colours shown once resolution is over: yellow for a device with the
/// light in use; yellow, green, off as a blink for one without (after it was
/// switched off); red before halting when no profile was found.
pub open spec fn startup_colors_of(resolved: Result<SensorInfo, ConfigError>) -> Seq<IndicatorColor> {
    match resolved {
        Ok(info) => if info.is_led_disabled {
            seq![IndicatorColor::Off, IndicatorColor::Yellow, IndicatorColor::Green, IndicatorColor::Off]
        } else {
            seq![IndicatorColor::Yellow]
        },
        Err(_) => seq![IndicatorColor::Red],
    }
}

impl SensorConfig {
    /// An empty table.
    pub fn new() -> (r: SensorConfig)
        ensures
            r.sensors@.len() == 0,
    {
        SensorConfig { sensors: Vec::new() }
    }

    /// Adds an entry; it takes precedence over earlier ones for the same address.
    pub fn insert(&mut self, mac: String, info: SensorInfo)
        ensures
            final(self).sensors@ == old(self).sensors@.push((mac, info)),
    {
        self.sensors.push((mac, info));
    }

    /// The profile recorded for a canonical address text.
    pub fn get(&self, mac: &String) -> (r: Option<SensorInfo>)
        ensures
            r == lookup_in(self.sensors@, mac@),
    {
        let mut i: usize = self.sensors.len();
        assert(self.sensors@.subrange(0, i as int) =~= self.sensors@);
        while i > 0
            invariant
                i <= self.sensors@.len(),
                lookup_in(self.sensors@, mac@) == lookup_in(self.sensors@.subrange(0, i as int), mac@),
            decreases i,
        {
            let ghost pre = self.sensors@.subrange(0, i as int);
            assert(pre.drop_last() =~= self.sensors@.subrange(0, i - 1));
            if self.sensors[i - 1].0 == *mac {
                return Some(self.sensors[i - 1].1.duplicate());
            }
            i = i - 1;
        }
        None
    }
}

/// Renders a hardware address in canonical form, e.g. `AA:BB:CC:DD:EE:FF`.
pub fn format_mac_address(mac_address: &[u8; 6]) -> (r: String)
    ensures
        r@ == mac_text(mac_address@),
{
    let mut s = String::new();
    push_hex_byte(&mut s, mac_address[0]);
    push_char(&mut s, ':');
    push_hex_byte(&mut s, mac_address[1]);
    push_char(&mut s, ':');
    push_hex_byte(&mut s, mac_address[2]);
    push_char(&mut s, ':');
    push_hex_byte(&mut s, mac_address[3]);
    push_char(&mut s, ':');
    push_hex_byte(&mut s, mac_address[4]);
    push_char(&mut s, ':');
    push_hex_byte(&mut s, mac_address[5]);
    assert(s@ =~= mac_text(mac_address@));
    s
}

/// Resolves this node's profile from its hardware address.
pub fn get_sensor_config(config: &SensorConfig, mac_address: &[u8; 6]) -> (r: Result<SensorInfo, ConfigError>)
    ensures
        r == resolve(*config, mac_address@),
{
    let mac_str = format_mac_address(mac_address);
    match config.get(&mac_str) {
        Some(info) => Ok(info),
        None => Err(ConfigError::UnknownDevice),
    }
}

/// The colours to show once the profile has been resolved, in order.
pub fn startup_colors(resolved: &Result<SensorInfo, ConfigError>) -> (r: Vec<IndicatorColor>)
    ensures
        r@ == startup_colors_of(*resolved),
{
    match resolved {
        Ok(info) => if info.is_led_disabled {
            vec![IndicatorColor::Off, IndicatorColor::Yellow, IndicatorColor::Green, IndicatorColor::Off]
        } else {
            vec![IndicatorColor::Yellow]
        },
        Err(_) => vec![IndicatorColor::Red],
    }
}

/// An address that the table does not hold never yields a profile: startup
/// fails, and the light is left red.
pub proof fn lemma_unknown_device_halts(config: SensorConfig, mac: Seq<u8>)
    requires
        mac.len() == 6,
        lookup_in(config.sensors@, mac_text(mac)) is None,
    ensures
        resolve(config, mac) == Err::<SensorInfo, ConfigError>(ConfigError::UnknownDevice),
        startup_colors_of(resolve(config, mac)).last() == IndicatorColor::Red,
{
}

} // verus!
