//! The controller: a fixed, named collection of devices, one shared
//! manual-mode flag, and the clock correction.
//!
//! A periodic, non-blocking `tick` updates every device from its schedule
//! unless manual mode is active; configuration operations address devices by
//! name and persist best-effort to the config store.

use crate::clock;
use crate::device::Device;
use crate::schedule::Schedule;
use crate::store::ConfigStore;
use crate::store::StoreValue;
use crate::store::load_schedule;
use crate::store::save_schedule;
use crate::store::spec_duration_key;
use crate::store::spec_get_i64_or;
use crate::store::spec_get_u32_or;
use crate::store::spec_get_u8_or;
use crate::store::spec_init_time_key;
use crate::store::spec_manual_mode_key;
use crate::store::spec_time_offset_key;
use vstd::prelude::*;
use vstd::string::*;

verus! {

/// A referenced device name does not exist in the controller's collection.
#[derive(Clone, Copy, PartialEq, Eq, Structural, Debug)]
pub enum ControlError {
    NotFound,
}

/// Name and default window of one device, fixed at startup.
#[derive(Debug)]
pub struct DeviceConfig {
    pub name: String,
    pub default_init_time: u32,
    pub default_duration: u32,
}

/// Read-only report of one device's state.
#[derive(Debug)]
pub struct DeviceStatus {
    pub name: String,
    pub is_on: bool,
    pub start_offset_seconds: u32,
    pub duration_seconds: u32,
}

/// Read-only report of the whole controller.
#[derive(Debug)]
pub struct Snapshot {
    pub manual_mode: bool,
    pub clock_offset_seconds: i64,
    pub devices: Vec<DeviceStatus>,
}

/// The devices after one tick at time-of-day `now`: frozen under manual
/// mode, otherwise each updated from its schedule in order.
pub open spec fn spec_devices_after_tick(devices: Seq<Device>, manual_mode: bool, now: u32) -> Seq<
    Device,
> {
    if manual_mode {
        devices
    } else {
        Seq::new(devices.len(), |i: int| devices[i].after_update(now))
    }
}

pub open spec fn config_names_unique(configs: Seq<DeviceConfig>) -> bool {
    forall|i: int, j: int|
        0 <= i < j < configs.len() ==> configs[i].name@ != configs[j].name@
}

/// The device set of the front-yard installation with its default windows:
/// outside nozzles at 06:15 for 45 minutes, front rotor at 07:00 for 40
/// minutes, and the 180-degree side sprinkler at 05:00 for 75 minutes.
pub fn front_yard_device_configs() -> (configs: Vec<DeviceConfig>)
    ensures
        config_names_unique(configs@),
        configs@.len() == 3,
        configs@[0].name@ == "toberas_afuera"@,
        configs@[0].default_init_time == 6 * 3600 + 15 * 60,
        configs@[0].default_duration == 45 * 60,
        configs@[1].name@ == "rotor_frente"@,
        configs@[1].default_init_time == 7 * 3600,
        configs@[1].default_duration == 40 * 60,
        configs@[2].name@ == "costado_180"@,
        configs@[2].default_init_time == 5 * 3600,
        configs@[2].default_duration == 75 * 60,
{
    let mut configs: Vec<DeviceConfig> = Vec::new();
    configs.push(
        DeviceConfig {
            name: String::from_str("toberas_afuera"),
            default_init_time: 6 * 3600 + 15 * 60,
            default_duration: 45 * 60,
        },
    );
    configs.push(
        DeviceConfig {
            name: String::from_str("rotor_frente"),
            default_init_time: 7 * 3600,
            default_duration: 40 * 60,
        },
    );
    configs.push(
        DeviceConfig {
            name: String::from_str("costado_180"),
            default_init_time: 5 * 3600,
            default_duration: 75 * 60,
        },
    );
    proof {
        reveal_strlit("toberas_afuera");
        reveal_strlit("rotor_frente");
        reveal_strlit("costado_180");
        assert("toberas_afuera"@.len() == 14);
        assert("rotor_frente"@.len() == 12);
        assert("costado_180"@.len() == 11);
        assert forall|i: int, j: int|
            0 <= i < j < configs@.len() implies configs@[i].name@ != configs@[j].name@ by {
            assert(configs@[0].name@ == "toberas_afuera"@);
            assert(configs@[1].name@ == "rotor_frente"@);
            assert(configs@[2].name@ == "costado_180"@);
        }
    }
    configs
}

/// The device set of the back-yard installation with its default windows:
/// front micro-sprinklers at 22:00 for 20 minutes, drippers at 16:00 for 5
/// hours, the 360-degree back sprinkler at 03:30 for 90 minutes, and the
/// pool-side back sprinkler at 21:00 for an hour.
pub fn back_yard_device_configs() -> (configs: Vec<DeviceConfig>)
    ensures
        config_names_unique(configs@),
        configs@.len() == 4,
        configs@[0].name@ == "micro_frente"@,
        configs@[0].default_init_time == 22 * 3600,
        configs@[0].default_duration == 20 * 60,
        configs@[1].name@ == "goteros"@,
        configs@[1].default_init_time == 16 * 3600,
        configs@[1].default_duration == 5 * 3600,
        configs@[2].name@ == "atras_360"@,
        configs@[2].default_init_time == 3 * 3600 + 30 * 60,
        configs@[2].default_duration == 90 * 60,
        configs@[3].name@ == "atras_pileta"@,
        configs@[3].default_init_time == 21 * 3600,
        configs@[3].default_duration == 60 * 60,
{
    let mut configs: Vec<DeviceConfig> = Vec::new();
    configs.push(
        DeviceConfig {
            name: String::from_str("micro_frente"),
            default_init_time: 22 * 3600,
            default_duration: 20 * 60,
        },
    );
    configs.push(
        DeviceConfig {
            name: String::from_str("goteros"),
            default_init_time: 16 * 3600,
            default_duration: 5 * 3600,
        },
    );
    configs.push(
        DeviceConfig {
            name: String::from_str("atras_360"),
            default_init_time: 3 * 3600 + 30 * 60,
            default_duration: 90 * 60,
        },
    );
    configs.push(
        DeviceConfig {
            name: String::from_str("atras_pileta"),
            default_init_time: 21 * 3600,
            default_duration: 60 * 60,
        },
    );
    proof {
        reveal_strlit("micro_frente");
        reveal_strlit("goteros");
        reveal_strlit("atras_360");
        reveal_strlit("atras_pileta");
        assert("micro_frente"@.len() == 12);
        assert("goteros"@.len() == 7);
        assert("atras_360"@.len() == 9);
        assert("atras_pileta"@.len() == 12);
        assert("micro_frente"@[0] == 'm');
        assert("atras_pileta"@[0] == 'a');
        assert forall|i: int, j: int|
            0 <= i < j < configs@.len() implies configs@[i].name@ != configs@[j].name@ by {
            assert(configs@[0].name@ == "micro_frente"@);
            assert(configs@[1].name@ == "goteros"@);
            assert(configs@[2].name@ == "atras_360"@);
            assert(configs@[3].name@ == "atras_pileta"@);
        }
    }
    configs
}

/// The controller that owns the devices and the shared mode and clock state.
pub struct Controller {
    pub devices: Vec<Device>,
    /// When true, ticks are a complete no-op for every device.
    pub manual_mode: bool,
    /// Signed correction added to the system clock's epoch seconds.
    pub clock_offset_seconds: i64,
}

impl Controller {
    /// Device names are unique within the collection.
    pub open spec fn wf(self) -> bool {
        forall|i: int, j: int|
            0 <= i < j < self.devices@.len() ==> self.devices@[i].name@ != self.devices@[j].name@
    }

    /// Some device carries `name`.
    pub open spec fn has_device(self, name: Seq<char>) -> bool {
        exists|i: int| 0 <= i < self.devices@.len() && self.devices@[i].name@ == name
    }

    /// The index of the device named `name` (meaningful when `has_device`
    /// holds and names are unique).
    pub open spec fn device_index(self, name: Seq<char>) -> int {
        choose|i: int| 0 <= i < self.devices@.len() && self.devices@[i].name@ == name
    }

    /// Restore a controller from the store: every configured device gets its
    /// persisted schedule (or its default for absent or malformed fields),
    /// the shared manual-mode flag and clock offset their persisted values
    /// (or off and zero). Every line starts low.
    pub fn from_store(store: &ConfigStore, configs: Vec<DeviceConfig>) -> (c: Controller)
        requires
            store.wf(),
            config_names_unique(configs@),
        ensures
            c.wf(),
            c.devices@.len() == configs@.len(),
            forall|i: int|
                0 <= i < configs@.len() ==> {
                    &&& c.devices@[i].name@ == configs@[i].name@
                    &&& c.devices@[i].schedule.start_offset_seconds == spec_get_u32_or(
                        store@,
                        spec_init_time_key(configs@[i].name@),
                        configs@[i].default_init_time,
                    )
                    &&& c.devices@[i].schedule.duration_seconds == spec_get_u32_or(
                        store@,
                        spec_duration_key(configs@[i].name@),
                        configs@[i].default_duration,
                    )
                    &&& !c.devices@[i].actuator.is_on
                },
            c.manual_mode == (spec_get_u8_or(store@, spec_manual_mode_key(), 0) != 0),
            c.clock_offset_seconds == spec_get_i64_or(store@, spec_time_offset_key(), 0),
    {
        let mut devices: Vec<Device> = Vec::new();
        let mut i: usize = 0;
        while i < configs.len()
            invariant
                store.wf(),
                i <= configs@.len(),
                devices@.len() == i,
                forall|j: int|
                    0 <= j < i ==> {
                        &&& devices@[j].name@ == configs@[j].name@
                        &&& devices@[j].schedule.start_offset_seconds == spec_get_u32_or(
                            store@,
                            spec_init_time_key(configs@[j].name@),
                            configs@[j].default_init_time,
                        )
                        &&& devices@[j].schedule.duration_seconds == spec_get_u32_or(
                            store@,
                            spec_duration_key(configs@[j].name@),
                            configs@[j].default_duration,
                        )
                        &&& !devices@[j].actuator.is_on
                    },
            decreases configs@.len() - i,
        {
            let cfg = &configs[i];
            let (init_time, duration) = load_schedule(
                store,
                cfg.name.as_str(),
                cfg.default_init_time,
                cfg.default_duration,
            );
            devices.push(Device::new_with_settings(cfg.name.clone(), duration, init_time));
            i = i + 1;
        }
        let manual_mode = match store.get_u8("manual_mode") {
            Some(v) => v != 0,
            None => false,
        };
        let clock_offset_seconds = match store.get_i64("time_offset") {
            Some(v) => v,
            None => 0,
        };
        let c = Controller { devices, manual_mode, clock_offset_seconds };
        proof {
            assert forall|i1: int, j1: int|
                0 <= i1 < j1 < c.devices@.len() implies c.devices@[i1].name@
                != c.devices@[j1].name@ by {
                assert(configs@[i1].name@ != configs@[j1].name@);
            }
        }
        c
    }

    /// One control-loop iteration: in automatic mode update every device
    /// from its schedule at time-of-day `now`, in a fixed order; in manual
    /// mode do nothing at all.
    pub fn tick(&mut self, now: u32)
        ensures
            final(self).manual_mode == old(self).manual_mode,
            final(self).clock_offset_seconds == old(self).clock_offset_seconds,
            final(self).devices@ == spec_devices_after_tick(
                old(self).devices@,
                old(self).manual_mode,
                now,
            ),
    {
        if self.manual_mode {
            return ;
        }
        let ghost orig = self.devices@;
        let mut i: usize = 0;
        while i < self.devices.len()
            invariant
                i <= self.devices@.len(),
                self.devices@.len() == orig.len(),
                self.manual_mode == old(self).manual_mode,
                self.clock_offset_seconds == old(self).clock_offset_seconds,
                orig == old(self).devices@,
                forall|j: int| 0 <= j < i ==> self.devices@[j] == orig[j].after_update(now),
                forall|j: int| i <= j < orig.len() ==> self.devices@[j] == orig[j],
            decreases self.devices@.len() - i,
        {
            self.devices[i].update(now);
            i = i + 1;
        }
        proof {
            assert(self.devices@ =~= spec_devices_after_tick(orig, false, now));
        }
    }

    /// A tick changes nothing a second time: re-evaluating at the same time
    /// of day leaves every device as it is and performs no hardware write.
    pub proof fn lemma_tick_idempotent(devices: Seq<Device>, manual_mode: bool, now: u32)
        ensures
            spec_devices_after_tick(
                spec_devices_after_tick(devices, manual_mode, now),
                manual_mode,
                now,
            ) == spec_devices_after_tick(devices, manual_mode, now),
            forall|i: int|
                0 <= i < devices.len() && !manual_mode ==> !(#[trigger] spec_devices_after_tick(
                    devices,
                    manual_mode,
                    now,
                )[i]).update_writes(now),
    {
        assert(spec_devices_after_tick(
            spec_devices_after_tick(devices, manual_mode, now),
            manual_mode,
            now,
        ) =~= spec_devices_after_tick(devices, manual_mode, now));
    }

    /// While manual mode is on, ticks freeze every device exactly as it
    /// stands, however the time of day advances.
    pub proof fn lemma_manual_mode_freezes(devices: Seq<Device>, now: u32)
        ensures
            spec_devices_after_tick(devices, true, now) == devices,
    {
    }

    fn find_device(&self, name: &String) -> (r: Option<usize>)
        ensures
            match r {
                Some(i) => i < self.devices@.len() && self.devices@[i as int].name@ == name@,
                None => forall|j: int|
                    0 <= j < self.devices@.len() ==> self.devices@[j].name@ != name@,
            },
    {
        let mut i: usize = 0;
        while i < self.devices.len()
            invariant
                i <= self.devices@.len(),
                forall|j: int| 0 <= j < i ==> self.devices@[j].name@ != name@,
            decreases self.devices@.len() - i,
        {
            if self.devices[i].name == *name {
                return Some(i);
            }
            i = i + 1;
        }
        None
    }

    /// Directly invert the named device's line, whatever the mode. The
    /// flip happens exactly once; nothing else changes.
    pub fn toggle_device(&mut self, name: &str) -> (r: Result<(), ControlError>)
        requires
            old(self).wf(),
        ensures
            final(self).wf(),
            final(self).manual_mode == old(self).manual_mode,
            final(self).clock_offset_seconds == old(self).clock_offset_seconds,
            match r {
                Ok(u) => old(self).has_device(name@) && final(self).devices@ == old(
                    self).devices@.update(
                    old(self).device_index(name@),
                    old(self).devices@[old(self).device_index(name@)].after_toggle(),
                ),
                Err(e) => e == ControlError::NotFound && !old(self).has_device(name@) && final(
                    self).devices@ == old(self).devices@,
            },
    {
        let key = name.to_owned();
        match self.find_device(&key) {
            Some(i) => {
                proof {
                    assert(old(self).has_device(name@));
                    let k = old(self).device_index(name@);
                    assert(old(self).devices@[k].name@ == name@);
                    assert(k == i as int);
                }
                self.devices[i].toggle();
                Ok(())
            },
            None => Err(ControlError::NotFound),
        }
    }

    /// A direct toggle is independent of manual mode: which device a name
    /// addresses, and so what a toggle does, is a function of the device
    /// collection alone, never of the mode.
    pub proof fn lemma_toggle_independent_of_mode(c1: Controller, c2: Controller, name: Seq<char>)
        requires
            c1.wf(),
            c1.devices@ == c2.devices@,
        ensures
            c1.has_device(name) == c2.has_device(name),
            c1.has_device(name) ==> c1.device_index(name) == c2.device_index(name),
    {
        if c1.has_device(name) {
            let i1 = c1.device_index(name);
            assert(0 <= i1 < c1.devices@.len() && c1.devices@[i1].name@ == name);
            assert(c2.has_device(name));
            let i2 = c2.device_index(name);
            assert(0 <= i2 < c2.devices@.len() && c2.devices@[i2].name@ == name);
            assert(i1 == i2);
        }
        if c2.has_device(name) {
            let i2 = c2.device_index(name);
            assert(0 <= i2 < c2.devices@.len() && c2.devices@[i2].name@ == name);
            assert(c1.has_device(name));
        }
    }

    /// Replace the named device's schedule (it takes effect on the next
    /// tick) and persist it best-effort: a failed write leaves the store
    /// unchanged while the new schedule stays authoritative in memory.
    pub fn update_schedule(
        &mut self,
        name: &str,
        start_offset_seconds: u32,
        duration_seconds: u32,
        store: &mut ConfigStore,
    ) -> (r: Result<(), ControlError>)
        requires
            old(self).wf(),
            old(store).wf(),
        ensures
            final(self).wf(),
            final(self).manual_mode == old(self).manual_mode,
            final(self).clock_offset_seconds == old(self).clock_offset_seconds,
            final(store).wf(),
            final(store).spec_writable() == old(store).spec_writable(),
            match r {
                Ok(u) => {
                    &&& old(self).has_device(name@)
                    &&& final(self).devices@ == old(self).devices@.update(
                        old(self).device_index(name@),
                        old(self).devices@[old(self).device_index(name@)].with_schedule(
                            (Schedule {
                                start_offset_seconds,
                                duration_seconds,
                            }),
                        ),
                    )
                    &&& old(store).spec_writable() ==> final(store)@ == old(store)@.insert(
                        spec_duration_key(name@),
                        StoreValue::U32(duration_seconds),
                    ).insert(spec_init_time_key(name@), StoreValue::U32(start_offset_seconds))
                    &&& !old(store).spec_writable() ==> final(store)@ == old(store)@
                },
                Err(e) => {
                    &&& e == ControlError::NotFound
                    &&& !old(self).has_device(name@)
                    &&& final(self).devices@ == old(self).devices@
                    &&& final(store)@ == old(store)@
                },
            },
    {
        let key = name.to_owned();
        match self.find_device(&key) {
            Some(i) => {
                proof {
                    assert(old(self).has_device(name@));
                    let k = old(self).device_index(name@);
                    assert(old(self).devices@[k].name@ == name@);
                    assert(k == i as int);
                }
                self.devices[i].set_schedule(
                    Schedule::new(start_offset_seconds, duration_seconds),
                );
                save_schedule(store, name, start_offset_seconds, duration_seconds);
                Ok(())
            },
            None => Err(ControlError::NotFound),
        }
    }

    /// Flip the shared manual/automatic mode, persist it best-effort, and
    /// return the new mode. Devices freeze at whatever state they hold.
    pub fn toggle_manual_mode(&mut self, store: &mut ConfigStore) -> (mode: bool)
        requires
            old(store).wf(),
        ensures
            final(self).manual_mode == !old(self).manual_mode,
            mode == final(self).manual_mode,
            final(self).devices@ == old(self).devices@,
            final(self).clock_offset_seconds == old(self).clock_offset_seconds,
            final(store).wf(),
            final(store).spec_writable() == old(store).spec_writable(),
            old(store).spec_writable() ==> final(store)@ == old(store)@.insert(
                spec_manual_mode_key(),
                StoreValue::U8(if mode {
                    1u8
                } else {
                    0u8
                }),
            ),
            !old(store).spec_writable() ==> final(store)@ == old(store)@,
    {
        self.manual_mode = !self.manual_mode;
        let value: u8 = if self.manual_mode {
            1
        } else {
            0
        };
        let _ = store.set_u8("manual_mode", value);
        self.manual_mode
    }

    /// Adopt the correction that makes the clock read `client_epoch` at the
    /// local instant `local_epoch`, persist it best-effort, and return it.
    pub fn sync_clock(&mut self, client_epoch: i64, local_epoch: i64, store: &mut ConfigStore) -> (offset:
        i64)
        requires
            old(store).wf(),
            i64::MIN <= client_epoch - local_epoch <= i64::MAX,
        ensures
            offset == client_epoch - local_epoch,
            final(self).clock_offset_seconds == offset,
            final(self).devices@ == old(self).devices@,
            final(self).manual_mode == old(self).manual_mode,
            final(store).wf(),
            final(store).spec_writable() == old(store).spec_writable(),
            old(store).spec_writable() ==> final(store)@ == old(store)@.insert(
                spec_time_offset_key(),
                StoreValue::I64(offset),
            ),
            !old(store).spec_writable() ==> final(store)@ == old(store)@,
    {
        let offset = client_epoch - local_epoch;
        self.clock_offset_seconds = offset;
        let _ = store.set_i64("time_offset", offset);
        offset
    }

    /// Synchronize to a client instant read against the system clock now;
    /// `None` (and no change at all) only when the difference does not fit
    /// a signed 64-bit integer. Success is owed for every client instant
    /// whose distance to the whole reportable clock range fits; the applied
    /// offset is the client instant minus some instant the clock can
    /// report.
    pub fn sync_clock_now(&mut self, client_epoch: i64, store: &mut ConfigStore) -> (r: Option<
        i64,
    >)
        requires
            old(store).wf(),
        ensures
            final(store).wf(),
            final(store).spec_writable() == old(store).spec_writable(),
            final(self).devices@ == old(self).devices@,
            final(self).manual_mode == old(self).manual_mode,
            i64::MIN + clock::CIVIL_EPOCH_MAX <= client_epoch <= i64::MAX
                + clock::CIVIL_EPOCH_MIN ==> r is Some,
            match r {
                Some(offset) => {
                    &&& final(self).clock_offset_seconds == offset
                    &&& client_epoch - clock::CIVIL_EPOCH_MAX <= offset <= client_epoch
                        - clock::CIVIL_EPOCH_MIN
                    &&& exists|local_epoch: int|
                        #![auto]
                        clock::epoch_in_civil_range(local_epoch) && offset == client_epoch
                            - local_epoch
                    &&& old(store).spec_writable() ==> final(store)@ == old(store)@.insert(
                        spec_time_offset_key(),
                        StoreValue::I64(offset),
                    )
                    &&& !old(store).spec_writable() ==> final(store)@ == old(store)@
                },
                None => *final(self) == *old(self) && final(store)@ == old(store)@,
            },
    {
        let local_epoch = clock::epoch_now();
        match clock::compute_clock_offset(client_epoch, local_epoch) {
            Some(_) => {
                let offset = self.sync_clock(client_epoch, local_epoch, store);
                proof {
                    assert(clock::epoch_in_civil_range(local_epoch as int) && offset
                        == client_epoch - local_epoch as int);
                }
                Some(offset)
            },
            None => None,
        }
    }

    /// Read the current time of day through the controller's own clock
    /// correction. Total: the result is the corrected time of day of some
    /// instant the system clock can report.
    pub fn now_seconds_since_midnight(&self) -> (r: u32)
        ensures
            r < clock::SECONDS_PER_DAY,
            exists|t: int|
                #![auto]
                clock::epoch_in_civil_range(t) && r == clock::spec_seconds_of_day(
                    t + self.clock_offset_seconds,
                ),
    {
        clock::now_seconds_since_midnight(self.clock_offset_seconds)
    }

    /// One control-loop iteration against the system clock: every device is
    /// updated at the corrected time of day the clock reads now; in manual
    /// mode nothing changes at all.
    pub fn tick_now(&mut self)
        ensures
            final(self).manual_mode == old(self).manual_mode,
            final(self).clock_offset_seconds == old(self).clock_offset_seconds,
            old(self).manual_mode ==> final(self).devices@ == old(self).devices@,
            exists|now: u32|
                #![auto]
                now < clock::SECONDS_PER_DAY && final(self).devices@ == spec_devices_after_tick(
                    old(self).devices@,
                    old(self).manual_mode,
                    now,
                ),
    {
        let now = self.now_seconds_since_midnight();
        self.tick(now);
        proof {
            assert(now < clock::SECONDS_PER_DAY && self.devices@ == spec_devices_after_tick(
                old(self).devices@,
                old(self).manual_mode,
                now,
            ));
        }
    }

    /// Read-only report of mode, clock correction, and every device's name,
    /// state and window; no side effects.
    pub fn get_snapshot(&self) -> (s: Snapshot)
        ensures
            s.manual_mode == self.manual_mode,
            s.clock_offset_seconds == self.clock_offset_seconds,
            s.devices@.len() == self.devices@.len(),
            forall|i: int|
                0 <= i < self.devices@.len() ==> {
                    &&& s.devices@[i].name@ == self.devices@[i].name@
                    &&& s.devices@[i].is_on == self.devices@[i].actuator.is_on
                    &&& s.devices@[i].start_offset_seconds
                        == self.devices@[i].schedule.start_offset_seconds
                    &&& s.devices@[i].duration_seconds
                        == self.devices@[i].schedule.duration_seconds
                },
    {
        let mut statuses: Vec<DeviceStatus> = Vec::new();
        let mut i: usize = 0;
        while i < self.devices.len()
            invariant
                i <= self.devices@.len(),
                statuses@.len() == i,
                forall|j: int|
                    0 <= j < i ==> {
                        &&& statuses@[j].name@ == self.devices@[j].name@
                        &&& statuses@[j].is_on == self.devices@[j].actuator.is_on
                        &&& statuses@[j].start_offset_seconds
                            == self.devices@[j].schedule.start_offset_seconds
                        &&& statuses@[j].duration_seconds
                            == self.devices@[j].schedule.duration_seconds
                    },
            decreases self.devices@.len() - i,
        {
            let d = &self.devices[i];
            statuses.push(
                DeviceStatus {
                    name: d.name.clone(),
                    is_on: d.actuator.snapshot(),
                    start_offset_seconds: d.schedule.start_offset_seconds,
                    duration_seconds: d.schedule.duration_seconds,
                },
            );
            i = i + 1;
        }
        Snapshot {
            manual_mode: self.manual_mode,
            clock_offset_seconds: self.clock_offset_seconds,
            devices: statuses,
        }
    }
}

} // verus!
