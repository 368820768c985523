//! What the configuration file holds.

use crate::number::{Number, ONE_BITS};
use crate::text::{prefixed, slug, slug_of};
use vstd::prelude::*;

verus! {

/// The whole configuration.
#[derive(Clone, Debug)]
pub struct Config {
    pub homecore: HomecoreConfig,
    pub lutron: LutronConfig,
    pub devices: Vec<DeviceConfig>,
    pub scenes: Vec<SceneConfig>,
    pub time_clocks: Vec<TimeclockConfig>,
}

/// HomeCore broker connection.
#[derive(Clone, Debug)]
pub struct HomecoreConfig {
    pub broker_host: String,
    pub broker_port: u16,
    pub plugin_id: String,
    pub password: String,
}

/// Broker host where none is configured.
pub fn default_broker_host() -> (r: String)
    ensures
        r@ == "127.0.0.1"@,
{
    "127.0.0.1".to_owned()
}

/// Broker port where none is configured.
pub fn default_broker_port() -> (r: u16)
    ensures
        r == 1883,
{
    1883
}

/// Plugin name where none is configured.
pub fn default_plugin_id() -> (r: String)
    ensures
        r@ == "plugin.lutron"@,
{
    "plugin.lutron".to_owned()
}

/// Connection to the RA2 main repeater.
#[derive(Clone, Debug)]
pub struct LutronConfig {
    pub host: String,
    pub port: u16,
    pub username: String,
    pub password: String,
    /// Fade time in seconds for devices without one of their own.
    pub default_fade_secs: Number,
    /// How long a button is held before a hold event is published.
    pub hold_threshold_ms: u64,
    /// How long to wait before the first attempt to reconnect after a connection was lost.
    pub reconnect_delay_secs: u64,
}

/// Telnet port where none is configured.
pub fn default_lip_port() -> (r: u16)
    ensures
        r == 23,
{
    23
}

/// User name where none is configured.
pub fn default_username() -> (r: String)
    ensures
        r@ == "lutron"@,
{
    "lutron".to_owned()
}

/// Fade time where none is configured: one second.
pub fn default_fade_secs() -> (r: Number)
    ensures
        r.bits == ONE_BITS,
{
    Number::one()
}

/// Hold threshold where none is configured.
pub fn default_hold_threshold_ms() -> (r: u64)
    ensures
        r == 500,
{
    500
}

/// Reconnection delay where none is configured.
pub fn default_reconnect_delay_secs() -> (r: u64)
    ensures
        r == 5,
{
    5
}

/// What a device is.
#[derive(Clone, Copy, Debug, PartialEq, Eq, Structural)]
pub enum DeviceKind {
    Dimmer,
    Switch,
    /// Motorised shade.
    Shade,
    /// Wall keypad: button events, and LEDs that can be set.
    Keypad,
    /// Pico remote: button events only.
    Pico,
    /// Occupancy sensor group: occupied or vacant, read-only.
    OccupancyGroup,
    /// Visor control receiver: buttons with LEDs, and contact closure inputs.
    Vcrx,
}

/// A configured device.
#[derive(Clone, Debug)]
pub struct DeviceConfig {
    pub integration_id: u32,
    pub name: String,
    pub kind: DeviceKind,
    pub area: Option<String>,
    /// Fade time in seconds for this device alone.
    pub fade_secs: Option<Number>,
    /// Shade positions: false counts from open as the repeater does, true from closed.
    pub invert_position: bool,
    /// Button component numbers.
    pub buttons: Vec<u32>,
    /// Contact closure input component numbers.
    pub ccis: Vec<u32>,
}

/// A configured scene: a phantom button of the main repeater.
#[derive(Clone, Debug)]
pub struct SceneConfig {
    pub name: String,
    /// Integration ID of the main repeater.
    pub main_repeater_id: u32,
    /// Component number of the phantom button.
    pub button_component: u32,
}

/// HomeCore device ID of a scene by its name.
pub open spec fn scene_hc_id(name: Seq<char>) -> Seq<char> {
    "lutron_scene_"@ + slug_of(name)
}

impl SceneConfig {
    /// HomeCore device ID: `lutron_scene_` and the slug of the name.
    pub fn hc_id(&self) -> (r: String)
        ensures
            r@ == scene_hc_id(self.name@),
    {
        let slug = slug(self.name.as_str());
        prefixed("lutron_scene_", slug.as_str())
    }
}

/// A configured timeclock event.
#[derive(Clone, Debug)]
pub struct TimeclockConfig {
    pub name: String,
    pub area: Option<String>,
    /// HomeCore device ID of the event.
    pub device_id: String,
}

impl TimeclockConfig {
    /// HomeCore device ID, as configured.
    pub fn hc_id(&self) -> (r: String)
        ensures
            r@ == self.device_id@,
    {
        self.device_id.clone()
    }
}

/// The HomeCore ID of a scene is the prefix of all scenes and then the slug of its name.
pub proof fn scene_ids_end_in_slugs(name: Seq<char>)
    ensures
        scene_hc_id(name) == "lutron_scene_"@ + slug_of(name),
{
}

} // verus!
