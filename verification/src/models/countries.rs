//! Record shapes of the country/region configuration endpoint.

use vstd::prelude::*;
use std::collections::HashMap;

verus! {

/// Regional endpoint configuration (LSL API + Socket Hub).
#[derive(Debug, Clone, PartialEq, Eq)]
pub struct AE {
    /// LSL API endpoint
    pub lsl_api: String,
    /// Socket Hub endpoint
    pub socket_hub: String,
}

/// Single country entry in the country list.
#[derive(Debug, Clone, PartialEq, Eq)]
pub struct CountryEntry {
    /// Display name of the country
    pub display_member: String,
    /// Value key of the country
    pub value_member: String,
}

/// Country list wrapper from the configuration payload.
#[derive(Debug, Clone, PartialEq, Eq)]
pub struct CountryList {
    /// The countries on offer
    pub countries: Vec<CountryEntry>,
}

/// Data payload of the country/region configuration endpoint.
#[derive(Debug, Clone)]
pub struct CountryConfigData {
    /// Analytics capture flag
    pub capture_analytics: Option<String>,
    /// List of countries
    pub country_list: Option<CountryList>,
    /// LSL service address
    pub lsl_service_url: Option<String>,
    /// Resource key
    pub libre_link_resource_key: Option<String>,
    /// Minimum supported application version
    pub min_version: Option<String>,
    /// Partner application keys
    pub partner_application_keys: Option<Vec<String>>,
    /// Alert flag
    pub show_alert: Option<bool>,
    /// Android badge flag
    pub show_android_badges: Option<String>,
    /// Supported languages
    pub supported_languages: Option<Vec<String>>,
    /// Regional endpoint map, keyed by region code
    pub regional_map: Option<HashMap<String, AE>>,
    /// Regions with alarms enabled
    pub alarms_enabled: Option<Vec<String>>,
    /// Heartbeat interval in milliseconds
    pub heartbeat_milliseconds: Option<u64>,
    /// Android application link
    pub llu_app_android: Option<String>,
    /// iOS application link
    pub llu_app_ios: Option<String>,
    /// SAM link
    pub llu_sam: Option<String>,
    /// Support link
    pub llu_support: Option<String>,
    /// Main support link
    pub llu_support_main: Option<String>,
    /// LSL API address
    pub lsl_api: Option<String>,
    /// LV link
    pub lv: Option<String>,
    /// Age of minority
    pub minority_age: Option<u32>,
    /// Name ordering
    pub name_order: Option<Vec<String>>,
    /// Notification service address
    pub notification_service: Option<String>,
    /// Safety banner interval
    pub safety_banner_interval: Option<u32>,
}

/// Response from the country/region configuration endpoint (unauthenticated).
#[derive(Debug, Clone)]
pub struct CountryConfigResponse {
    /// Service status code
    pub status: i32,
    /// Configuration payload
    pub data: CountryConfigData,
}

/// Map of all regional endpoints.
#[derive(Debug, Clone, PartialEq, Eq)]
pub struct RegionalMap {
    /// United States endpoint
    pub us: AE,
    /// Europe endpoint
    pub eu: AE,
    /// France endpoint
    pub fr: AE,
    /// Japan endpoint
    pub jp: AE,
    /// Germany endpoint
    pub de: AE,
    /// Asia-Pacific endpoint
    pub ap: AE,
    /// Australia endpoint
    pub au: AE,
    /// United Arab Emirates endpoint
    pub ae: AE,
    /// Europe 2 endpoint
    pub eu2: AE,
    /// Canada endpoint
    pub ca: AE,
    /// Latin America endpoint
    pub la: AE,
    /// Russia endpoint
    pub ru: AE,
    /// China endpoint
    pub cn: AE,
}

} // verus!
