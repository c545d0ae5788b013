use bsd_kernel::error::Error;
use bsd_kernel::module::{
    apply_event, dispatch_event, event_needs_slot, module_event, take_slot, ModuleEventType,
    ModuleEvents, SharedModule, INVALID_EVENT, MOD_LOAD, MOD_QUIESCE, MOD_SHUTDOWN, MOD_UNLOAD,
};

#[derive(Debug, Default, Clone, PartialEq, Eq)]
struct Counter {
    loads: u32,
    unloads: u32,
}

impl ModuleEvents for Counter {
    fn load(&mut self) {
        self.loads += 1;
    }

    fn unload(&mut self) {
        self.unloads += 1;
    }
}

fn peek(shared: &SharedModule<Counter>) -> Option<Counter> {
    let mut locked = shared.lock().unwrap();
    locked.slot_mut().clone()
}

#[test]
fn from_i32_maps_the_four_codes() {
    assert_eq!(ModuleEventType::from_i32(0), Some(ModuleEventType::Load));
    assert_eq!(ModuleEventType::from_i32(1), Some(ModuleEventType::Unload));
    assert_eq!(ModuleEventType::from_i32(2), Some(ModuleEventType::Shutdown));
    assert_eq!(ModuleEventType::from_i32(3), Some(ModuleEventType::Quiesce));
}

#[test]
fn from_i32_rejects_codes_outside_the_set() {
    assert_eq!(ModuleEventType::from_i32(4), None);
    assert_eq!(ModuleEventType::from_i32(-1), None);
    assert_eq!(ModuleEventType::from_i32(i32::MAX), None);
    assert_eq!(ModuleEventType::from_i32(i32::MIN), None);
}

#[test]
fn try_from_reports_a_conversion_error() {
    assert_eq!(ModuleEventType::try_from(1), Ok(ModuleEventType::Unload));
    assert_eq!(
        ModuleEventType::try_from(7),
        Err(Error::ConversionError("Invalid value for modeventtype"))
    );
    assert_eq!(ModuleEventType::try_from(-3), Err(Error::ConversionError(INVALID_EVENT)));
}

#[test]
fn codes_round_trip() {
    let all = [
        (ModuleEventType::Load, MOD_LOAD),
        (ModuleEventType::Unload, MOD_UNLOAD),
        (ModuleEventType::Shutdown, MOD_SHUTDOWN),
        (ModuleEventType::Quiesce, MOD_QUIESCE),
    ];
    for (event, code) in all {
        assert_eq!(event.code(), code);
        assert_eq!(ModuleEventType::from_i32(event.code() as i32), Some(event));
    }
}

#[test]
fn only_load_and_unload_need_the_slot() {
    assert!(event_needs_slot(Some(ModuleEventType::Load)));
    assert!(event_needs_slot(Some(ModuleEventType::Unload)));
    assert!(!event_needs_slot(Some(ModuleEventType::Quiesce)));
    assert!(!event_needs_slot(Some(ModuleEventType::Shutdown)));
    assert!(!event_needs_slot(None));
}

#[test]
fn take_slot_empties_the_slot() {
    let mut slot = Some(Counter { loads: 2, unloads: 0 });
    assert_eq!(take_slot(&mut slot), Some(Counter { loads: 2, unloads: 0 }));
    assert_eq!(slot, None);
    assert_eq!(take_slot(&mut slot), None);
}

#[test]
fn apply_event_load_runs_load_once() {
    let mut slot = Some(Counter::default());
    apply_event(&mut slot, Some(ModuleEventType::Load));
    assert_eq!(slot, Some(Counter { loads: 1, unloads: 0 }));
}

#[test]
fn apply_event_unload_removes_the_instance() {
    let mut slot = Some(Counter::default());
    apply_event(&mut slot, Some(ModuleEventType::Unload));
    assert_eq!(slot, None);
}

#[test]
fn apply_event_on_an_empty_slot_does_nothing() {
    let mut slot: Option<Counter> = None;
    apply_event(&mut slot, Some(ModuleEventType::Load));
    assert_eq!(slot, None);
    apply_event(&mut slot, Some(ModuleEventType::Unload));
    assert_eq!(slot, None);
}

#[test]
fn apply_event_ignores_quiesce_shutdown_and_unknown() {
    let before = Some(Counter { loads: 1, unloads: 0 });
    let mut slot = before.clone();
    apply_event(&mut slot, Some(ModuleEventType::Quiesce));
    assert_eq!(slot, before);
    apply_event(&mut slot, Some(ModuleEventType::Shutdown));
    assert_eq!(slot, before);
    apply_event(&mut slot, None);
    assert_eq!(slot, before);
}

#[test]
fn new_keeps_the_initial_instance_behind_the_lock() {
    let shared = SharedModule::new(Some(Counter { loads: 5, unloads: 6 }));
    assert_eq!(peek(&shared), Some(Counter { loads: 5, unloads: 6 }));
    let empty: SharedModule<Counter> = SharedModule::new(None);
    assert_eq!(peek(&empty), None);
}

#[test]
fn lock_is_released_when_the_guard_is_dropped() {
    let shared = SharedModule::new(Some(Counter::default()));
    {
        let mut locked = shared.lock().unwrap();
        locked.slot_mut().as_mut().unwrap().loads = 9;
    }
    assert!(!shared.inner().is_locked());
    assert_eq!(peek(&shared), Some(Counter { loads: 9, unloads: 0 }));
}

#[test]
fn clones_share_one_slot() {
    let shared = SharedModule::new(Some(Counter::default()));
    let other = shared.clone();
    module_event(&other, 0);
    assert_eq!(peek(&shared), Some(Counter { loads: 1, unloads: 0 }));
    shared.cleanup();
    assert_eq!(peek(&other), None);
}

#[test]
fn cleanup_empties_the_slot_and_can_be_repeated() {
    let shared = SharedModule::new(Some(Counter::default()));
    shared.cleanup();
    assert_eq!(peek(&shared), None);
    shared.cleanup();
    assert_eq!(peek(&shared), None);
}

#[test]
fn module_event_load_then_unload() {
    let shared = SharedModule::new(Some(Counter::default()));
    assert_eq!(module_event(&shared, 0), 0);
    assert_eq!(peek(&shared), Some(Counter { loads: 1, unloads: 0 }));
    assert_eq!(module_event(&shared, 1), 0);
    assert_eq!(peek(&shared), None);
    assert_eq!(module_event(&shared, 0), 0);
    assert_eq!(peek(&shared), None);
}

#[test]
fn module_event_unknown_code_changes_nothing() {
    let shared = SharedModule::new(Some(Counter { loads: 1, unloads: 0 }));
    for code in [4, 5, 99, -1, i32::MIN, i32::MAX] {
        assert_eq!(module_event(&shared, code), 0);
        assert_eq!(peek(&shared), Some(Counter { loads: 1, unloads: 0 }));
    }
}

#[test]
fn module_event_quiesce_and_shutdown_change_nothing() {
    let shared = SharedModule::new(Some(Counter { loads: 1, unloads: 0 }));
    assert_eq!(module_event(&shared, 2), 0);
    assert_eq!(module_event(&shared, 3), 0);
    assert_eq!(peek(&shared), Some(Counter { loads: 1, unloads: 0 }));
}

#[test]
fn module_event_does_not_take_the_lock_for_ignored_codes() {
    let shared = SharedModule::new(Some(Counter::default()));
    let _held = shared.lock().unwrap();
    assert_eq!(module_event(&shared, 3), 0);
    assert_eq!(module_event(&shared, 2), 0);
    assert_eq!(module_event(&shared, 42), 0);
}

#[test]
fn every_observation_sees_a_whole_instance_or_none() {
    let shared = SharedModule::new(Some(Counter::default()));
    let codes = [0, 3, 0, 7, 2, 0, 1, 0, 1, 5];
    let mut loads = 0;
    let mut live = true;
    for code in codes {
        module_event(&shared, code);
        if code == 0 && live {
            loads += 1;
        }
        if code == 1 {
            live = false;
        }
        let seen = peek(&shared);
        if live {
            assert_eq!(seen, Some(Counter { loads, unloads: 0 }));
        } else {
            assert_eq!(seen, None);
        }
    }
}

#[test]
fn apply_event_unload_hands_back_the_unloaded_instance() {
    let mut slot = Some(Counter { loads: 1, unloads: 0 });
    let removed = apply_event(&mut slot, Some(ModuleEventType::Unload));
    assert_eq!(removed, Some(Counter { loads: 1, unloads: 1 }));
    assert_eq!(slot, None);
    assert_eq!(apply_event(&mut slot, Some(ModuleEventType::Unload)), None);
}

#[test]
fn apply_event_removes_nothing_unless_it_unloads() {
    let mut slot = Some(Counter::default());
    assert_eq!(apply_event(&mut slot, Some(ModuleEventType::Load)), None);
    assert_eq!(apply_event(&mut slot, Some(ModuleEventType::Quiesce)), None);
    assert_eq!(apply_event(&mut slot, Some(ModuleEventType::Shutdown)), None);
    assert_eq!(apply_event(&mut slot, None), None);
    assert_eq!(slot, Some(Counter { loads: 1, unloads: 0 }));
}

#[test]
fn inner_is_the_mutex_of_the_slot() {
    let shared = SharedModule::new(Some(Counter { loads: 3, unloads: 0 }));
    let first = shared.inner();
    let second = shared.clone().inner();
    assert!(std::sync::Arc::ptr_eq(&first, &second));
    first.lock().as_mut().unwrap().loads = 4;
    assert_eq!(peek(&shared), Some(Counter { loads: 4, unloads: 0 }));
}

#[test]
fn dispatch_event_classifies_the_code() {
    let mut slot = Some(Counter::default());
    assert_eq!(dispatch_event(&mut slot, 0), None);
    assert_eq!(slot, Some(Counter { loads: 1, unloads: 0 }));
    for code in [2, 3, 4, -1, i32::MAX] {
        assert_eq!(dispatch_event(&mut slot, code), None);
        assert_eq!(slot, Some(Counter { loads: 1, unloads: 0 }));
    }
    assert_eq!(dispatch_event(&mut slot, 1), Some(Counter { loads: 1, unloads: 1 }));
    assert_eq!(slot, None);
    assert_eq!(dispatch_event(&mut slot, 0), None);
    assert_eq!(slot, None);
}

#[test]
fn default_is_an_empty_slot() {
    let shared: SharedModule<Counter> = SharedModule::default();
    assert_eq!(peek(&shared), None);
    assert_eq!(module_event(&shared, 0), 0);
    assert_eq!(peek(&shared), None);
}
