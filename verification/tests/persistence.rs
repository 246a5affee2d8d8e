use sprinklers::ConfigStore;
use sprinklers::Controller;
use sprinklers::controller::DeviceConfig;
use sprinklers::store::StoreError;
use sprinklers::store::duration_key;
use sprinklers::store::init_time_key;
use sprinklers::store::key_base;
use sprinklers::store::load_schedule;
use sprinklers::store::save_schedule;

#[test]
fn typed_reads_tolerate_absent_and_mismatched_keys() {
    let mut store = ConfigStore::new();
    assert_eq!(store.get_u32("nothing"), None);
    assert_eq!(store.get_i64("nothing"), None);
    assert_eq!(store.get_u8("nothing"), None);
    assert!(store.set_u32("k", 7).is_ok());
    assert_eq!(store.get_u32("k"), Some(7));
    // A typed read of a key holding another type behaves as absent.
    assert_eq!(store.get_i64("k"), None);
    assert_eq!(store.get_u8("k"), None);
    // Overwriting replaces the value and its type.
    assert!(store.set_i64("k", -9).is_ok());
    assert_eq!(store.get_i64("k"), Some(-9));
    assert_eq!(store.get_u32("k"), None);
}

#[test]
fn write_protected_store_rejects_and_keeps_state() {
    let mut store = ConfigStore::new();
    assert!(store.set_u32("k", 1).is_ok());
    store.set_writable(false);
    assert_eq!(store.set_u32("k", 2), Err(StoreError::WriteFailed));
    assert_eq!(store.set_i64("o", 5), Err(StoreError::WriteFailed));
    assert_eq!(store.set_u8("m", 1), Err(StoreError::WriteFailed));
    assert_eq!(store.get_u32("k"), Some(1));
    assert_eq!(store.get_i64("o"), None);
    store.set_writable(true);
    assert!(store.set_u32("k", 2).is_ok());
    assert_eq!(store.get_u32("k"), Some(2));
}

#[test]
fn keys_are_truncated_name_plus_field_suffix() {
    assert_eq!(key_base("toberas_afuera"), "toberas_af");
    assert_eq!(key_base("goteros"), "goteros");
    assert_eq!(duration_key("toberas_afuera"), "toberas_af_d");
    assert_eq!(init_time_key("toberas_afuera"), "toberas_af_i");
    assert_eq!(duration_key("goteros"), "goteros_d");
    assert_eq!(init_time_key("goteros"), "goteros_i");
}

#[test]
fn save_then_load_round_trips() {
    let mut store = ConfigStore::new();
    assert!(save_schedule(&mut store, "valve_a", 20, 30));
    let (init_time, duration) = load_schedule(&store, "valve_a", 111, 222);
    assert_eq!(init_time, 20);
    assert_eq!(duration, 30);
}

#[test]
fn load_uses_defaults_when_nothing_is_stored() {
    let store = ConfigStore::new();
    let (init_time, duration) = load_schedule(&store, "valve_a", 111, 222);
    assert_eq!(init_time, 111);
    assert_eq!(duration, 222);
}

#[test]
fn failed_save_leaves_store_on_its_previous_values() {
    let mut store = ConfigStore::new();
    assert!(save_schedule(&mut store, "valve_a", 20, 30));
    store.set_writable(false);
    assert!(!save_schedule(&mut store, "valve_a", 40, 50));
    store.set_writable(true);
    let (init_time, duration) = load_schedule(&store, "valve_a", 111, 222);
    assert_eq!(init_time, 20);
    assert_eq!(duration, 30);
}

fn single_valve_configs() -> Vec<DeviceConfig> {
    vec![DeviceConfig {
        name: String::from("valve_a"),
        default_init_time: 21600,
        default_duration: 2700,
    }]
}

#[test]
fn update_schedule_survives_simulated_restart() {
    let mut store = ConfigStore::new();
    let mut c = Controller::from_store(&store, single_valve_configs());
    assert_eq!(c.devices[0].schedule.start_offset_seconds, 21600);
    assert!(c.update_schedule("valve_a", 20, 30, &mut store).is_ok());
    // Restart: rebuild everything from the store alone.
    let reloaded = Controller::from_store(&store, single_valve_configs());
    assert_eq!(reloaded.devices[0].schedule.start_offset_seconds, 20);
    assert_eq!(reloaded.devices[0].schedule.duration_seconds, 30);
}

#[test]
fn update_schedule_with_failed_write_reverts_on_restart() {
    let mut store = ConfigStore::new();
    let mut c = Controller::from_store(&store, single_valve_configs());
    assert!(c.update_schedule("valve_a", 20, 30, &mut store).is_ok());
    store.set_writable(false);
    // The failed persist is swallowed: memory updates, storage does not.
    assert!(c.update_schedule("valve_a", 40, 50, &mut store).is_ok());
    assert_eq!(c.devices[0].schedule.start_offset_seconds, 40);
    assert_eq!(c.devices[0].schedule.duration_seconds, 50);
    let reloaded = Controller::from_store(&store, single_valve_configs());
    assert_eq!(reloaded.devices[0].schedule.start_offset_seconds, 20);
    assert_eq!(reloaded.devices[0].schedule.duration_seconds, 30);
}

#[test]
fn names_sharing_truncated_prefix_alias_stored_schedules() {
    // Both names truncate to the prefix "valvula_fr", so their stored
    // fields occupy the same keys: the later save wins for both.
    let a = "valvula_frente_a";
    let b = "valvula_frente_b";
    assert_eq!(key_base(a), key_base(b));
    let mut store = ConfigStore::new();
    assert!(save_schedule(&mut store, a, 1000, 60));
    assert!(save_schedule(&mut store, b, 2000, 120));
    let (a_init, a_duration) = load_schedule(&store, a, 0, 0);
    assert_eq!(a_init, 2000);
    assert_eq!(a_duration, 120);
    let configs = vec![
        DeviceConfig { name: String::from(a), default_init_time: 0, default_duration: 0 },
        DeviceConfig { name: String::from(b), default_init_time: 0, default_duration: 0 },
    ];
    let c = Controller::from_store(&store, configs);
    assert_eq!(c.devices[0].schedule.start_offset_seconds, 2000);
    assert_eq!(c.devices[0].schedule.duration_seconds, 120);
    assert_eq!(c.devices[1].schedule.start_offset_seconds, 2000);
    assert_eq!(c.devices[1].schedule.duration_seconds, 120);
}

#[test]
fn manual_mode_and_clock_offset_survive_restart() {
    let mut store = ConfigStore::new();
    let mut c = Controller::from_store(&store, single_valve_configs());
    assert!(!c.manual_mode);
    assert_eq!(c.clock_offset_seconds, 0);
    let mode = c.toggle_manual_mode(&mut store);
    assert!(mode);
    let offset = c.sync_clock(1700000000, 1690000000, &mut store);
    assert_eq!(offset, 10000000);
    let reloaded = Controller::from_store(&store, single_valve_configs());
    assert!(reloaded.manual_mode);
    assert_eq!(reloaded.clock_offset_seconds, 10000000);
    // Devices always restart with their lines low.
    assert!(!reloaded.devices[0].actuator.is_on);
}

#[test]
fn from_store_starts_in_auto_with_zero_offset_on_first_boot() {
    let store = ConfigStore::new();
    let c = Controller::from_store(&store, single_valve_configs());
    assert!(!c.manual_mode);
    assert_eq!(c.clock_offset_seconds, 0);
    assert_eq!(c.devices.len(), 1);
    assert_eq!(c.devices[0].name, "valve_a");
    assert!(!c.devices[0].actuator.is_on);
}
