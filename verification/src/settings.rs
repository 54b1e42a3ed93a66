use vstd::prelude::*;
use vstd::string::*;
use crate::text::str_eq;

verus! {

/// The scheduler's configuration record: remote-service credential,
/// collection to draw images from, rotation interval, and whether
/// automatic rotation is enabled.
pub struct WallpaperSettings {
    pub api_key: String,
    pub collection_id: String,
    pub interval_value: u32,
    pub interval_unit: String,
    pub auto_change: bool,
}

/// Mathematical image of a settings record: the five fields as
/// plain values.
pub ghost struct SettingsView {
    pub api_key: Seq<char>,
    pub collection_id: Seq<char>,
    pub interval_value: u32,
    pub interval_unit: Seq<char>,
    pub auto_change: bool,
}

impl View for WallpaperSettings {
    type V = SettingsView;

    open spec fn view(&self) -> SettingsView {
        SettingsView {
            api_key: self.api_key@,
            collection_id: self.collection_id@,
            interval_value: self.interval_value,
            interval_unit: self.interval_unit@,
            auto_change: self.auto_change,
        }
    }
}

impl Clone for WallpaperSettings {
    fn clone(&self) -> (r: Self)
        ensures
            r@ == self@,
    {
        WallpaperSettings {
            api_key: self.api_key.clone(),
            collection_id: self.collection_id.clone(),
            interval_value: self.interval_value,
            interval_unit: self.interval_unit.clone(),
            auto_change: self.auto_change,
        }
    }
}

/// The fields of the default settings record: no credential, the fixed
/// default collection, a three-hour interval, rotation off.
pub open spec fn default_settings_view() -> SettingsView {
    SettingsView {
        api_key: Seq::<char>::empty(),
        collection_id: "880012"@,
        interval_value: 3,
        interval_unit: "hours"@,
        auto_change: false,
    }
}

impl Default for WallpaperSettings {
    fn default() -> (r: Self)
        ensures
            r@ == default_settings_view(),
    {
        WallpaperSettings {
            api_key: String::new(),
            collection_id: String::from_str("880012"),
            interval_value: 3,
            interval_unit: String::from_str("hours"),
            auto_change: false,
        }
    }
}

/// The sleep interval, in seconds, that a value and a unit name denote:
/// minutes, hours, days and weeks scale by the usual factors, and any
/// other unit name falls back to one hour.
pub open spec fn interval_secs(value: u32, unit: Seq<char>) -> int {
    if unit == "minutes"@ {
        value * 60
    } else if unit == "hours"@ {
        value * 3600
    } else if unit == "days"@ {
        value * 86400
    } else if unit == "weeks"@ {
        value * 604800
    } else {
        3600
    }
}

/// Converts an interval value and unit name to a duration in seconds.
pub fn get_interval_duration(value: u32, unit: &str) -> (secs: u64)
    ensures
        secs == interval_secs(value, unit@),
{
    if str_eq(unit, "minutes") {
        value as u64 * 60
    } else if str_eq(unit, "hours") {
        value as u64 * 3600
    } else if str_eq(unit, "days") {
        value as u64 * 86400
    } else if str_eq(unit, "weeks") {
        value as u64 * 604800
    } else {
        3600
    }
}

} // verus!
