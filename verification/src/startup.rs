//! Starting up: what is registered with HomeCore, and what is no longer configured.

use crate::config::{scene_hc_id, DeviceConfig, SceneConfig, TimeclockConfig};
use crate::devices::{device_hc_id, device_type_of, DeviceEntry, SceneEntry, TimeclockEntry};
use crate::published::{
    nothing_is_stale_while_configured, stale_ids, stale_ids_are_the_unconfigured, stale_of,
};
use vstd::prelude::*;

verus! {

/// How often starting up is tried.
pub const MAX_ATTEMPTS: u32 = 3;

/// How long to wait before starting up is tried again.
pub const RETRY_DELAY_SECS: u64 = 60;

/// What to do after starting up failed.
#[derive(Clone, Copy, Debug, PartialEq, Eq, Structural)]
pub enum AfterFailure {
    /// Try again after a wait.
    Retry { delay_secs: u64 },
    /// Exit.
    GiveUp,
}

/// What to do after an attempt to start up failed; attempts count from one.
pub fn after_failed_start(attempt: u32) -> (r: AfterFailure)
    ensures
        r == if attempt < MAX_ATTEMPTS {
            AfterFailure::Retry { delay_secs: RETRY_DELAY_SECS }
        } else {
            AfterFailure::GiveUp
        },
{
    if attempt < MAX_ATTEMPTS {
        AfterFailure::Retry { delay_secs: RETRY_DELAY_SECS }
    } else {
        AfterFailure::GiveUp
    }
}

/// Texts as sequences.
pub open spec fn texts(list: Seq<String>) -> Seq<Seq<char>> {
    list.map_values(|s: String| s@)
}

/// An optional text as a sequence.
pub open spec fn optional_text(s: Option<String>) -> Option<Seq<char>> {
    match s {
        Some(s) => Some(s@),
        None => None,
    }
}

/// Everything that is configured, by registry entries.
pub struct Registry {
    pub devices: Vec<DeviceEntry>,
    pub scenes: Vec<SceneEntry>,
    pub time_clocks: Vec<TimeclockEntry>,
}

/// What is registered with HomeCore for one device, scene or timeclock event.
pub struct Registration {
    pub hc_id: String,
    pub name: String,
    pub device_type: String,
    pub area: Option<String>,
}

/// A `Registration`, with texts as sequences.
pub struct RegistrationView {
    pub hc_id: Seq<char>,
    pub name: Seq<char>,
    pub device_type: Seq<char>,
    pub area: Option<Seq<char>>,
}

impl View for Registration {
    type V = RegistrationView;

    open spec fn view(&self) -> RegistrationView {
        RegistrationView {
            hc_id: self.hc_id@,
            name: self.name@,
            device_type: self.device_type@,
            area: optional_text(self.area),
        }
    }
}

/// Registration of a device.
pub open spec fn device_registration(dev: DeviceEntry) -> RegistrationView {
    RegistrationView {
        hc_id: dev.hc_id@,
        name: dev.config.name@,
        device_type: device_type_of(dev.config.kind),
        area: optional_text(dev.config.area),
    }
}

/// Registration of a scene.
pub open spec fn scene_registration(scene: SceneEntry) -> RegistrationView {
    RegistrationView {
        hc_id: scene.hc_id@,
        name: scene.config.name@,
        device_type: "scene"@,
        area: None,
    }
}

/// Registration of a timeclock event.
pub open spec fn timeclock_registration(tc: TimeclockEntry) -> RegistrationView {
    RegistrationView {
        hc_id: tc.hc_id@,
        name: tc.config.name@,
        device_type: "timeclock_event"@,
        area: optional_text(tc.config.area),
    }
}

proof fn text_follows(before: Seq<String>, x: String, all: Seq<Seq<char>>, i: int)
    requires
        0 <= i < all.len(),
        texts(before) == all.take(i),
        x@ == all[i],
    ensures
        texts(before.push(x)) == all.take(i + 1),
{
    assert(texts(before.push(x)) =~= texts(before).push(x@));
    assert(all.take(i + 1) =~= all.take(i).push(all[i]));
}

/// Registrations by their views.
pub open spec fn registrations_view(list: Seq<Registration>) -> Seq<RegistrationView> {
    list.map_values(|x: Registration| x@)
}

proof fn registration_follows(
    before: Seq<Registration>,
    x: Registration,
    all: Seq<RegistrationView>,
    i: int,
)
    requires
        0 <= i < all.len(),
        registrations_view(before) == all.take(i),
        x@ == all[i],
    ensures
        registrations_view(before.push(x)) == all.take(i + 1),
{
    assert(registrations_view(before.push(x)) =~= registrations_view(before).push(x@));
    assert(all.take(i + 1) =~= all.take(i).push(all[i]));
}

fn copy_optional(s: &Option<String>) -> (r: Option<String>)
    ensures
        r == *s,
{
    match s {
        Some(s) => Some(s.clone()),
        None => None,
    }
}

impl Registry {
    /// HomeCore IDs of everything: devices, then scenes, then timeclock events.
    pub open spec fn ids(self) -> Seq<Seq<char>> {
        self.devices@.map_values(|d: DeviceEntry| d.hc_id@) + self.scenes@.map_values(
            |s: SceneEntry| s.hc_id@,
        ) + self.time_clocks@.map_values(|t: TimeclockEntry| t.hc_id@)
    }

    /// Registrations of everything, in the same order.
    pub open spec fn all_registrations(self) -> Seq<RegistrationView> {
        self.devices@.map_values(|d: DeviceEntry| device_registration(d))
            + self.scenes@.map_values(|s: SceneEntry| scene_registration(s))
            + self.time_clocks@.map_values(|t: TimeclockEntry| timeclock_registration(t))
    }

    /// Builds the registry from what is configured, in the order of the configuration.
    pub fn build(
        devices: Vec<DeviceConfig>,
        scenes: Vec<SceneConfig>,
        time_clocks: Vec<TimeclockConfig>,
    ) -> (r: Registry)
        ensures
            r.devices@.len() == devices@.len(),
            forall|i: int|
                0 <= i < devices@.len() ==> (#[trigger] r.devices@[i]).config == devices@[i]
                    && r.devices@[i].hc_id@ == device_hc_id(devices@[i].integration_id),
            r.scenes@.len() == scenes@.len(),
            forall|i: int|
                0 <= i < scenes@.len() ==> (#[trigger] r.scenes@[i]).config == scenes@[i]
                    && r.scenes@[i].hc_id@ == scene_hc_id(scenes@[i].name@),
            r.time_clocks@.len() == time_clocks@.len(),
            forall|i: int|
                0 <= i < time_clocks@.len() ==> (#[trigger] r.time_clocks@[i]).config
                    == time_clocks@[i] && r.time_clocks@[i].hc_id@ == time_clocks@[i].device_id@,
    {
        let ghost all_devices = devices@;
        let ghost all_scenes = scenes@;
        let ghost all_time_clocks = time_clocks@;
        let mut device_entries: Vec<DeviceEntry> = Vec::new();
        for config in it: devices.into_iter()
            invariant
                it.seq() == all_devices,
                device_entries@.len() == it.index(),
                forall|i: int|
                    0 <= i < it.index() ==> (#[trigger] device_entries@[i]).config == all_devices[i]
                        && device_entries@[i].hc_id@ == device_hc_id(all_devices[i].integration_id),
        {
            device_entries.push(DeviceEntry::new(config));
        }
        let mut scene_entries: Vec<SceneEntry> = Vec::new();
        for config in it: scenes.into_iter()
            invariant
                it.seq() == all_scenes,
                scene_entries@.len() == it.index(),
                forall|i: int|
                    0 <= i < it.index() ==> (#[trigger] scene_entries@[i]).config == all_scenes[i]
                        && scene_entries@[i].hc_id@ == scene_hc_id(all_scenes[i].name@),
        {
            scene_entries.push(SceneEntry::new(config));
        }
        let mut timeclock_entries: Vec<TimeclockEntry> = Vec::new();
        for config in it: time_clocks.into_iter()
            invariant
                it.seq() == all_time_clocks,
                timeclock_entries@.len() == it.index(),
                forall|i: int|
                    0 <= i < it.index() ==> (#[trigger] timeclock_entries@[i]).config
                        == all_time_clocks[i] && timeclock_entries@[i].hc_id@
                        == all_time_clocks[i].device_id@,
        {
            timeclock_entries.push(TimeclockEntry::new(config));
        }
        Registry { devices: device_entries, scenes: scene_entries, time_clocks: timeclock_entries }
    }

    /// HomeCore IDs of everything that is configured.
    pub fn current_ids(&self) -> (r: Vec<String>)
        ensures
            texts(r@) == self.ids(),
    {
        let mut ids: Vec<String> = Vec::new();
        let mut i: usize = 0;
        while i < self.devices.len()
            invariant
                i <= self.devices.len(),
                texts(ids@) == self.ids().take(i as int),
            decreases self.devices.len() - i,
        {
            proof {
                text_follows(ids@, self.devices@[i as int].hc_id, self.ids(), i as int);
            }
            ids.push(self.devices[i].hc_id.clone());
            i += 1;
        }
        let mut j: usize = 0;
        while j < self.scenes.len()
            invariant
                j <= self.scenes.len(),
                texts(ids@) == self.ids().take(self.devices@.len() + j),
            decreases self.scenes.len() - j,
        {
            proof {
                text_follows(
                    ids@,
                    self.scenes@[j as int].hc_id,
                    self.ids(),
                    self.devices@.len() + j,
                );
            }
            ids.push(self.scenes[j].hc_id.clone());
            j += 1;
        }
        let mut k: usize = 0;
        while k < self.time_clocks.len()
            invariant
                k <= self.time_clocks.len(),
                texts(ids@) == self.ids().take(self.devices@.len() + self.scenes@.len() + k),
            decreases self.time_clocks.len() - k,
        {
            proof {
                text_follows(
                    ids@,
                    self.time_clocks@[k as int].hc_id,
                    self.ids(),
                    self.devices@.len() + self.scenes@.len() + k,
                );
            }
            ids.push(self.time_clocks[k].hc_id.clone());
            k += 1;
        }
        assert(self.ids().take(self.ids().len() as int) =~= self.ids());
        ids
    }

    /// What to register with HomeCore, in order.
    pub fn registrations(&self) -> (r: Vec<Registration>)
        ensures
            registrations_view(r@) == self.all_registrations(),
    {
        let ghost all = self.all_registrations();
        let mut out: Vec<Registration> = Vec::new();
        let mut i: usize = 0;
        while i < self.devices.len()
            invariant
                i <= self.devices.len(),
                all == self.all_registrations(),
                registrations_view(out@) == all.take(i as int),
            decreases self.devices.len() - i,
        {
            let dev = &self.devices[i];
            let registration = Registration {
                hc_id: dev.hc_id.clone(),
                name: dev.config.name.clone(),
                device_type: dev.homecore_device_type().to_owned(),
                area: copy_optional(&dev.config.area),
            };
            proof {
                registration_follows(out@, registration, all, i as int);
            }
            out.push(registration);
            i += 1;
        }
        let mut j: usize = 0;
        while j < self.scenes.len()
            invariant
                j <= self.scenes.len(),
                all == self.all_registrations(),
                registrations_view(out@) == all.take(self.devices@.len() + j),
            decreases self.scenes.len() - j,
        {
            let scene = &self.scenes[j];
            let registration = Registration {
                hc_id: scene.hc_id.clone(),
                name: scene.config.name.clone(),
                device_type: "scene".to_owned(),
                area: None,
            };
            proof {
                registration_follows(out@, registration, all, self.devices@.len() + j);
            }
            out.push(registration);
            j += 1;
        }
        let mut k: usize = 0;
        while k < self.time_clocks.len()
            invariant
                k <= self.time_clocks.len(),
                all == self.all_registrations(),
                registrations_view(out@) == all.take(
                    self.devices@.len() + self.scenes@.len() + k,
                ),
            decreases self.time_clocks.len() - k,
        {
            let tc = &self.time_clocks[k];
            let registration = Registration {
                hc_id: tc.hc_id.clone(),
                name: tc.config.name.clone(),
                device_type: "timeclock_event".to_owned(),
                area: copy_optional(&tc.config.area),
            };
            proof {
                registration_follows(
                    out@,
                    registration,
                    all,
                    self.devices@.len() + self.scenes@.len() + k,
                );
            }
            out.push(registration);
            k += 1;
        }
        assert(all.take(all.len() as int) =~= all);
        out
    }
}

/// One thing to do while starting up.
pub enum StartupAction {
    /// Remove a device that is no longer configured.
    Unregister { hc_id: String },
    /// Register a device, a scene or a timeclock event.
    Register(Registration),
    /// Receive the commands to a device.
    Subscribe { hc_id: String },
    /// Publish that a device is available.
    PublishAvailable { hc_id: String },
}

/// A `StartupAction`, with texts as sequences.
pub enum StartupActionView {
    Unregister { hc_id: Seq<char> },
    Register(RegistrationView),
    Subscribe { hc_id: Seq<char> },
    PublishAvailable { hc_id: Seq<char> },
}

impl View for StartupAction {
    type V = StartupActionView;

    open spec fn view(&self) -> StartupActionView {
        match self {
            StartupAction::Unregister { hc_id } => StartupActionView::Unregister { hc_id: hc_id@ },
            StartupAction::Register(registration) => StartupActionView::Register(registration@),
            StartupAction::Subscribe { hc_id } => StartupActionView::Subscribe { hc_id: hc_id@ },
            StartupAction::PublishAvailable { hc_id } => StartupActionView::PublishAvailable {
                hc_id: hc_id@,
            },
        }
    }
}

/// Actions by their views.
pub open spec fn plan_view(plan: Seq<StartupAction>) -> Seq<StartupActionView> {
    plan.map_values(|a: StartupAction| a@)
}

/// Removing devices, one after the other.
pub open spec fn unregister_all(ids: Seq<Seq<char>>) -> Seq<StartupActionView> {
    ids.map_values(|hc_id: Seq<char>| StartupActionView::Unregister { hc_id })
}

/// Announcing one registration: registered, then subscribed to, then published as available.
pub open spec fn announce(registration: RegistrationView) -> Seq<StartupActionView> {
    seq![
        StartupActionView::Register(registration),
        StartupActionView::Subscribe { hc_id: registration.hc_id },
        StartupActionView::PublishAvailable { hc_id: registration.hc_id },
    ]
}

/// Announcing registrations, one after the other.
pub open spec fn announce_all(registrations: Seq<RegistrationView>) -> Seq<StartupActionView>
    decreases registrations.len(),
{
    if registrations.len() == 0 {
        seq![]
    } else {
        announce_all(registrations.drop_last()) + announce(registrations.last())
    }
}

impl Registry {
    /// What starting up does: whatever was published before and is no longer configured is
    /// removed, then everything that is configured is announced.
    pub open spec fn plan(self, previous: Seq<Seq<char>>) -> Seq<StartupActionView> {
        unregister_all(stale_of(previous, self.ids())) + announce_all(self.all_registrations())
    }

    /// What to do while starting up, given the IDs that were published before.
    pub fn startup_plan(&self, previous: &Vec<String>) -> (r: Vec<StartupAction>)
        ensures
            plan_view(r@) == self.plan(texts(previous@)),
    {
        let current = self.current_ids();
        let stale = stale_ids(previous, &current);
        let ghost stale_views = texts(stale@);
        let ghost first = unregister_all(stale_views);
        let mut plan: Vec<StartupAction> = Vec::new();
        assert(plan_view(plan@) =~= first.take(0));
        for hc_id in it: stale.into_iter()
            invariant
                texts(it.seq()) == stale_views,
                first == unregister_all(stale_views),
                plan_view(plan@) == first.take(it.index() as int),
        {
            let ghost before = plan@;
            plan.push(StartupAction::Unregister { hc_id });
            proof {
                let i = it.index() as int;
                assert(stale_views[i] == hc_id@);
                assert(plan_view(plan@) =~= plan_view(before).push(first[i]));
                assert(first.take(i + 1) =~= first.take(i).push(first[i]));
            }
        }
        assert(first.take(first.len() as int) =~= first);
        let registrations = self.registrations();
        let ghost views = registrations_view(registrations@);
        assert(plan_view(plan@) =~= first + announce_all(views.take(0)));
        for registration in it: registrations.into_iter()
            invariant
                registrations_view(it.seq()) == views,
                plan_view(plan@) == first + announce_all(views.take(it.index() as int)),
        {
            let ghost before = plan@;
            let ghost view = registration@;
            let hc_id = registration.hc_id.clone();
            let same_id = registration.hc_id.clone();
            plan.push(StartupAction::Register(registration));
            plan.push(StartupAction::Subscribe { hc_id });
            plan.push(StartupAction::PublishAvailable { hc_id: same_id });
            proof {
                let i = it.index() as int;
                assert(views[i] == view);
                assert(views.take(i + 1).drop_last() =~= views.take(i));
                assert(plan_view(plan@) =~= plan_view(before) + announce(view));
                assert(first + announce_all(views.take(i + 1)) =~= first + announce_all(
                    views.take(i),
                ) + announce(view));
            }
        }
        assert(views.take(views.len() as int) =~= views);
        plan
    }
}

/// The registry's IDs are those of its registrations, in the same order.
pub proof fn registrations_carry_the_ids(registry: Registry)
    ensures
        registry.ids() == registry.all_registrations().map_values(|r: RegistrationView| r.hc_id),
{
    assert(registry.ids() =~= registry.all_registrations().map_values(
        |r: RegistrationView| r.hc_id,
    ));
}

proof fn announcements_are_of_registrations(
    registrations: Seq<RegistrationView>,
    action: StartupActionView,
)
    ensures
        announce_all(registrations).contains(action) <==> exists|i: int|
            0 <= i < registrations.len() && announce(#[trigger] registrations[i]).contains(action),
    decreases registrations.len(),
{
    if registrations.len() > 0 {
        let before = registrations.drop_last();
        let earlier = announce_all(before);
        let last = announce(registrations.last());
        let all = announce_all(registrations);
        announcements_are_of_registrations(before, action);
        if all.contains(action) {
            let k = all.index_of(action);
            if k < earlier.len() {
                assert(earlier[k] == action);
                let i = choose|i: int|
                    0 <= i < before.len() && announce(#[trigger] before[i]).contains(action);
                assert(registrations[i] == before[i]);
            } else {
                assert(last[k - earlier.len()] == action);
                assert(registrations[registrations.len() - 1] == registrations.last());
            }
        }
        if exists|i: int|
            0 <= i < registrations.len() && announce(#[trigger] registrations[i]).contains(action) {
            let i = choose|i: int|
                0 <= i < registrations.len() && announce(#[trigger] registrations[i]).contains(
                    action,
                );
            if i < before.len() {
                assert(before[i] == registrations[i]);
                let k = earlier.index_of(action);
                assert(all[k] == action);
            } else {
                let k = last.index_of(action);
                assert(all[earlier.len() + k] == action);
            }
        }
    }
}

/// Starting up removes exactly what was published before and is no longer configured.
pub proof fn only_the_unconfigured_is_removed(
    registry: Registry,
    previous: Seq<Seq<char>>,
    id: Seq<char>,
)
    ensures
        registry.plan(previous).contains(StartupActionView::Unregister { hc_id: id })
            <==> previous.contains(id) && !registry.ids().contains(id),
{
    let action = StartupActionView::Unregister { hc_id: id };
    let stale = stale_of(previous, registry.ids());
    let removals = unregister_all(stale);
    let announcements = announce_all(registry.all_registrations());
    let plan = registry.plan(previous);
    stale_ids_are_the_unconfigured(previous, registry.ids(), id);
    announcements_are_of_registrations(registry.all_registrations(), action);
    if plan.contains(action) {
        let k = plan.index_of(action);
        if k < removals.len() {
            assert(removals[k] == action);
            assert(stale[k] == id);
        } else {
            assert(announcements[k - removals.len()] == action);
        }
    }
    if stale.contains(id) {
        let k = stale.index_of(id);
        assert(plan[k] == action);
    }
}

/// Starting up registers, subscribes to and publishes as available everything that is configured.
pub proof fn everything_configured_is_announced(
    registry: Registry,
    previous: Seq<Seq<char>>,
    i: int,
)
    requires
        0 <= i < registry.all_registrations().len(),
    ensures
        ({
            let registration = registry.all_registrations()[i];
            let hc_id = registration.hc_id;
            &&& registry.plan(previous).contains(StartupActionView::Register(registration))
            &&& registry.plan(previous).contains(StartupActionView::Subscribe { hc_id })
            &&& registry.plan(previous).contains(StartupActionView::PublishAvailable { hc_id })
        }),
{
    let registration = registry.all_registrations()[i];
    let announcements = announce_all(registry.all_registrations());
    let removals = unregister_all(stale_of(previous, registry.ids()));
    let plan = registry.plan(previous);
    assert forall|k: int| 0 <= k < 3 implies plan.contains(
        #[trigger] announce(registration)[k],
    ) by {
        let action = announce(registration)[k];
        announcements_are_of_registrations(registry.all_registrations(), action);
        assert(announce(registration).contains(action));
        let j = announcements.index_of(action);
        assert(plan[removals.len() + j] == action);
    }
    assert(plan.contains(announce(registration)[0]));
    assert(plan.contains(announce(registration)[1]));
    assert(plan.contains(announce(registration)[2]));
}

/// Starting up again with the same configuration removes nothing.
pub proof fn restarting_removes_nothing(registry: Registry)
    ensures
        registry.plan(registry.ids()) == announce_all(registry.all_registrations()),
{
    nothing_is_stale_while_configured(registry.ids(), registry.ids());
    assert(unregister_all(Seq::empty()) =~= Seq::<StartupActionView>::empty());
    assert(registry.plan(registry.ids()) =~= announce_all(registry.all_registrations()));
}

/// Texts are viewed one by one, in their places, and an optional text as what it is.
pub proof fn text_views_keep_everything(list: Seq<String>, i: int, s: String)
    requires
        0 <= i < list.len(),
    ensures
        texts(list).len() == list.len(),
        texts(list)[i] == list[i]@,
        optional_text(Some(s)) == Some(s@),
        optional_text(None) is None,
{
}

/// The view of a registration keeps all of it, and that of several keeps every one in its place.
pub proof fn registration_views_keep_everything(list: Seq<Registration>, i: int)
    requires
        0 <= i < list.len(),
    ensures
        list[i]@.hc_id == list[i].hc_id@,
        list[i]@.name == list[i].name@,
        list[i]@.device_type == list[i].device_type@,
        list[i]@.area is Some <==> list[i].area is Some,
        list[i].area is Some ==> list[i]@.area->0 == list[i].area->0@,
        registrations_view(list).len() == list.len(),
        registrations_view(list)[i] == list[i]@,
{
}

/// The view of a plan keeps every action in its place, and all of each.
pub proof fn plan_views_keep_everything(plan: Seq<StartupAction>, i: int)
    requires
        0 <= i < plan.len(),
    ensures
        plan_view(plan).len() == plan.len(),
        plan[i] matches StartupAction::Unregister { hc_id } ==> plan_view(plan)[i]
            == (StartupActionView::Unregister { hc_id: hc_id@ }),
        plan[i] matches StartupAction::Register(registration) ==> plan_view(plan)[i]
            == StartupActionView::Register(registration@),
        plan[i] matches StartupAction::Subscribe { hc_id } ==> plan_view(plan)[i]
            == (StartupActionView::Subscribe { hc_id: hc_id@ }),
        plan[i] matches StartupAction::PublishAvailable { hc_id } ==> plan_view(plan)[i]
            == (StartupActionView::PublishAvailable { hc_id: hc_id@ }),
{
}

/// Each device is registered in its place, first of all, under its own ID, with the name and the
/// area that are configured and with the type of its kind: a dimmer as a light, a switch as a
/// switch, a shade as a cover, an occupancy group as an occupancy sensor, and what has buttons as a
/// button.
pub proof fn devices_are_registered_as_configured(registry: Registry, i: int)
    requires
        0 <= i < registry.devices@.len(),
    ensures
        ({
            let dev = registry.devices@[i];
            let kind = dev.config.kind;
            let registration = registry.all_registrations()[i];
            &&& registration.hc_id == dev.hc_id@
            &&& registration.name == dev.config.name@
            &&& registration.area is Some <==> dev.config.area is Some
            &&& dev.config.area is Some ==> registration.area->0 == dev.config.area->0@
            &&& kind is Dimmer ==> registration.device_type == "light"@
            &&& kind is Switch ==> registration.device_type == "switch"@
            &&& kind is Shade ==> registration.device_type == "cover"@
            &&& kind is OccupancyGroup ==> registration.device_type == "occupancy_sensor"@
            &&& kind is Keypad || kind is Pico || kind is Vcrx ==> registration.device_type
                == "button"@
        }),
{
}

/// Each scene is registered in its place, after all devices, under its own ID, with its configured
/// name, as a scene and without an area.
pub proof fn scenes_are_registered_as_configured(registry: Registry, i: int)
    requires
        0 <= i < registry.scenes@.len(),
    ensures
        registry.all_registrations()[registry.devices@.len() + i] == (RegistrationView {
            hc_id: registry.scenes@[i].hc_id@,
            name: registry.scenes@[i].config.name@,
            device_type: "scene"@,
            area: None,
        }),
{
}

/// Each timeclock event is registered in its place, last of all, under its own ID, with the name and
/// the area that are configured, as a timeclock event. Nothing else is registered.
pub proof fn time_clocks_are_registered_as_configured(registry: Registry, i: int)
    requires
        0 <= i < registry.time_clocks@.len(),
    ensures
        ({
            let tc = registry.time_clocks@[i];
            let registration = registry.all_registrations()[registry.devices@.len()
                + registry.scenes@.len() + i];
            &&& registration.hc_id == tc.hc_id@
            &&& registration.name == tc.config.name@
            &&& registration.area is Some <==> tc.config.area is Some
            &&& tc.config.area is Some ==> registration.area->0 == tc.config.area->0@
            &&& registration.device_type == "timeclock_event"@
        }),
{
}

/// There are as many IDs and as many registrations as there are devices, scenes and timeclock events
/// together, and the IDs are those of the devices, then of the scenes, then of the timeclock events.
pub proof fn everything_configured_has_its_id(registry: Registry)
    ensures
        registry.ids().len() == registry.devices@.len() + registry.scenes@.len()
            + registry.time_clocks@.len(),
        registry.all_registrations().len() == registry.devices@.len() + registry.scenes@.len()
            + registry.time_clocks@.len(),
        forall|i: int|
            0 <= i < registry.devices@.len() ==> #[trigger] registry.ids()[i]
                == registry.devices@[i].hc_id@,
        forall|i: int|
            registry.devices@.len() <= i < registry.devices@.len() + registry.scenes@.len()
                ==> #[trigger] registry.ids()[i] == registry.scenes@[i
                - registry.devices@.len()].hc_id@,
        forall|i: int|
            registry.devices@.len() + registry.scenes@.len() <= i < registry.ids().len()
                ==> #[trigger] registry.ids()[i] == registry.time_clocks@[i
                - registry.devices@.len() - registry.scenes@.len()].hc_id@,
{
}

proof fn announcements_come_in_threes(registrations: Seq<RegistrationView>, i: int)
    requires
        0 <= i < registrations.len(),
    ensures
        announce_all(registrations).len() == 3 * registrations.len(),
        announce_all(registrations)[3 * i] == StartupActionView::Register(registrations[i]),
        announce_all(registrations)[3 * i + 1] == (StartupActionView::Subscribe {
            hc_id: registrations[i].hc_id,
        }),
        announce_all(registrations)[3 * i + 2] == (StartupActionView::PublishAvailable {
            hc_id: registrations[i].hc_id,
        }),
    decreases registrations.len(),
{
    let before = registrations.drop_last();
    if before.len() > 0 {
        announcements_come_in_threes(
            before,
            if i < before.len() {
                i
            } else {
                0
            },
        );
    } else {
        assert(announce_all(before).len() == 0);
    }
    assert(announce_all(registrations) == announce_all(before) + announce(registrations.last()));
    if i < before.len() {
        assert(registrations[i] == before[i]);
    }
}

/// Starting up removes the stale IDs first, in their order, and then takes the registrations one by
/// one: each is registered, then subscribed to, then published as available. Nothing else is done.
pub proof fn plans_remove_then_announce(
    registry: Registry,
    previous: Seq<Seq<char>>,
    k: int,
    i: int,
)
    requires
        0 <= i < registry.all_registrations().len(),
    ensures
        ({
            let stale = stale_of(previous, registry.ids());
            let plan = registry.plan(previous);
            let registration = registry.all_registrations()[i];
            let at = stale.len() + 3 * i;
            &&& plan.len() == stale.len() + 3 * registry.all_registrations().len()
            &&& 0 <= k < stale.len() ==> plan[k] == (StartupActionView::Unregister {
                hc_id: stale[k],
            })
            &&& plan[at] == StartupActionView::Register(registration)
            &&& plan[at + 1] == (StartupActionView::Subscribe { hc_id: registration.hc_id })
            &&& plan[at + 2] == (StartupActionView::PublishAvailable { hc_id: registration.hc_id })
        }),
{
    announcements_come_in_threes(registry.all_registrations(), i);
}

/// Without anything configured, starting up removes what is stale and does nothing else.
pub proof fn empty_registries_only_remove(registry: Registry, previous: Seq<Seq<char>>, k: int)
    requires
        registry.all_registrations().len() == 0,
    ensures
        registry.plan(previous).len() == stale_of(previous, registry.ids()).len(),
        0 <= k < registry.plan(previous).len() ==> registry.plan(previous)[k] == (
        StartupActionView::Unregister { hc_id: stale_of(previous, registry.ids())[k] }),
{
}

} // verus!
