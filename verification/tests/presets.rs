use a_simple_autoclicker::model::{Action, ClickPosition, Hotkey};
use a_simple_autoclicker::presets::{Preset, PresetStore};

/// Keeps what it is given in memory and can be told to fail.
struct MemoryStorage {
    fail_with: Option<String>,
    writes: Vec<Vec<String>>,
}

impl MemoryStorage {
    fn working() -> Self {
        MemoryStorage { fail_with: None, writes: Vec::new() }
    }

    fn failing(message: &str) -> Self {
        MemoryStorage { fail_with: Some(message.to_string()), writes: Vec::new() }
    }

    fn write(&mut self, store: &PresetStore) -> Result<(), String> {
        if let Some(message) = &self.fail_with {
            return Err(message.clone());
        }
        self.writes.push(store.names().iter().map(|name| name.to_string()).collect());
        Ok(())
    }
}

fn preset(name: &str, interval_ms: u64) -> Preset {
    Preset {
        name: name.to_string(),
        action: Action::RightClick,
        action_label: "Right mouse click".to_string(),
        interval_ms,
        duration_ms: 600_000,
        max_actions: 250,
        position: Some(ClickPosition { x: 120, y: 340 }),
        hotkey: Hotkey::F9,
    }
}

#[test]
fn deleting_without_a_selection_is_a_no_op() {
    let mut store = PresetStore::default();
    let mut storage = MemoryStorage::working();
    assert_eq!(store.delete(0, |s: &PresetStore| storage.write(s)), Ok(None));
    assert!(storage.writes.is_empty());
}

#[test]
fn new_names_are_listed_by_lower_case_name() {
    let mut store = PresetStore::default();
    let mut storage = MemoryStorage::working();
    assert_eq!(store.save(preset("beta", 10), |s: &PresetStore| storage.write(s)), Ok(()));
    assert_eq!(store.save(preset("B", 20), |s: &PresetStore| storage.write(s)), Ok(()));
    assert_eq!(store.save(preset("a", 30), |s: &PresetStore| storage.write(s)), Ok(()));
    assert_eq!(store.save(preset("Alpha", 40), |s: &PresetStore| storage.write(s)), Ok(()));
    assert_eq!(store.names(), vec!["a", "Alpha", "B", "beta"]);
    assert_eq!(storage.writes.len(), 4);
    assert_eq!(storage.writes[3], vec!["a", "Alpha", "B", "beta"]);
}

#[test]
fn saving_an_existing_name_replaces_it_in_place() {
    let mut store = PresetStore::default();
    let mut storage = MemoryStorage::working();
    store.save(preset("one", 10), |s: &PresetStore| storage.write(s)).unwrap();
    store.save(preset("two", 20), |s: &PresetStore| storage.write(s)).unwrap();
    store.save(preset("one", 99), |s: &PresetStore| storage.write(s)).unwrap();
    assert_eq!(store.names(), vec!["one", "two"]);
    assert_eq!(store.get(0).unwrap().interval_ms, 99);
    assert_eq!(store.find(&"one".to_string()), Some(0));
    assert_eq!(store.find(&"three".to_string()), None);
}

#[test]
fn saving_twice_is_saving_once() {
    let mut storage = MemoryStorage::working();
    let mut once = PresetStore::default();
    once.save(preset("x", 10), |s: &PresetStore| storage.write(s)).unwrap();
    let mut twice = PresetStore::default();
    twice.save(preset("x", 10), |s: &PresetStore| storage.write(s)).unwrap();
    twice.save(preset("x", 10), |s: &PresetStore| storage.write(s)).unwrap();
    assert_eq!(once.presets(), twice.presets());
}

#[test]
fn a_failed_write_keeps_the_former_presets() {
    let mut store = PresetStore::default();
    let mut storage = MemoryStorage::working();
    store.save(preset("kept", 10), |s: &PresetStore| storage.write(s)).unwrap();
    let mut broken = MemoryStorage::failing("disk full");
    assert_eq!(store.save(preset("lost", 10), |s: &PresetStore| broken.write(s)), Err("disk full".to_string()));
    assert_eq!(store.save(preset("kept", 55), |s: &PresetStore| broken.write(s)), Err("disk full".to_string()));
    assert_eq!(store.names(), vec!["kept"]);
    assert_eq!(store.get(0).unwrap().interval_ms, 10);
    assert_eq!(store.delete(0, |s: &PresetStore| broken.write(s)), Err("disk full".to_string()));
    assert_eq!(store.names(), vec!["kept"]);
}

#[test]
fn deleting_returns_the_removed_preset() {
    let mut store = PresetStore::default();
    let mut storage = MemoryStorage::working();
    store.save(preset("a", 1), |s: &PresetStore| storage.write(s)).unwrap();
    store.save(preset("b", 2), |s: &PresetStore| storage.write(s)).unwrap();
    assert_eq!(store.delete(0, |s: &PresetStore| storage.write(s)), Ok(Some(preset("a", 1))));
    assert_eq!(store.names(), vec!["b"]);
    assert_eq!(storage.writes.last().unwrap(), &vec!["b".to_string()]);
    assert_eq!(store.delete(1, |s: &PresetStore| storage.write(s)), Ok(None));
}

#[test]
fn get_copies_every_setting() {
    let store = PresetStore::from_presets(vec![preset("Ten minute target", 75)]);
    assert_eq!(store.get(0), Some(preset("Ten minute target", 75)));
    assert_eq!(store.get(1), None);
}

#[test]
fn commit_takes_the_written_presets_only_after_a_good_write() {
    let mut store = PresetStore::from_presets(vec![preset("kept", 1)]);
    let candidate = PresetStore::from_presets(vec![preset("new", 2)]);
    assert_eq!(store.commit(candidate, Err("denied".to_string())), Err("denied".to_string()));
    assert_eq!(store.names(), vec!["kept"]);
    let candidate = PresetStore::from_presets(vec![preset("new", 2)]);
    assert_eq!(store.commit(candidate, Ok(())), Ok(()));
    assert_eq!(store.names(), vec!["new"]);
}

#[test]
fn a_failed_save_writes_the_updated_list_and_keeps_the_old_one() {
    let mut store = PresetStore::default();
    let mut storage = MemoryStorage::working();
    store.save(preset("b", 1), |s: &PresetStore| storage.write(s)).unwrap();
    let mut handed: Vec<String> = Vec::new();
    let answer = store.save(preset("a", 2), |s: &PresetStore| {
        handed = s.names().iter().map(|name| name.to_string()).collect();
        Err("no space".to_string())
    });
    assert_eq!(answer, Err("no space".to_string()));
    assert_eq!(handed, vec!["a", "b"]);
    assert_eq!(store.names(), vec!["b"]);
}

#[test]
fn names_stay_distinct_across_saves_and_deletes() {
    let mut store = PresetStore::default();
    let mut storage = MemoryStorage::working();
    for (name, interval) in [("a", 1), ("A", 2), ("a", 3), ("b", 4), ("A", 5)] {
        store.save(preset(name, interval), |s: &PresetStore| storage.write(s)).unwrap();
    }
    assert_eq!(store.names(), vec!["a", "A", "b"]);
    assert_eq!(store.delete(1, |s: &PresetStore| storage.write(s)), Ok(Some(preset("A", 5))));
    store.save(preset("A", 6), |s: &PresetStore| storage.write(s)).unwrap();
    assert_eq!(store.names(), vec!["a", "A", "b"]);
}
