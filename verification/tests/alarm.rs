use car_alarm::CarAlarmSystem;

#[test]
fn test_lock_when_open_is_true() {
    let mut cas = CarAlarmSystem::new();
    cas.open = true;
    cas.lock();
    assert!(cas.unlocked());
}

#[test]
fn test_lock_when_open_is_false() {
    let mut cas = CarAlarmSystem::new();
    cas.lock();
    assert!(cas.locked());
}

#[test]
fn test_unlock_when_armed_is_false() {
    let mut cas = CarAlarmSystem::new();
    cas.unlock();
    assert!(!cas.flash() && !cas.sound() && !cas.armed() && cas.unlocked());
}

#[test]
fn test_unlock_when_armed_is_true() {
    let mut cas = CarAlarmSystem::new();
    cas.flash = true;
    cas.sound = true;
    cas.armed = true;
    cas.unlock();
    assert!(!cas.flash() && !cas.sound() && !cas.armed() && cas.unlocked());
}

#[test]
fn test_open_when_armed_is_false() {
    let mut cas = CarAlarmSystem::new();
    cas.open();
    assert!(!cas.flash() && !cas.sound() && !cas.armed() && cas.opened());
}

#[test]
fn test_open_when_armed_is_true() {
    let mut cas = CarAlarmSystem::new();
    cas.armed = true;
    cas.open();
    assert!(cas.flash() && cas.sound() && cas.armed() && cas.opened());
}

#[test]
fn test_tick_when_should_be_armed() {
    let mut cas = CarAlarmSystem::new();
    cas.clock = 1;
    cas.close();
    cas.lock();
    cas.armed = false;
    cas.tick();
    assert!(cas.armed());
}

#[test]
fn test_tick_when_should_not_be_armed() {
    let mut cas = CarAlarmSystem::new();
    cas.tick();
    assert!(!cas.armed());
}

#[test]
fn test_tick_when_should_turn_sound_off() {
    let mut cas = CarAlarmSystem::new();
    cas.clock = 2;
    cas.sound = true;
    cas.tick();
    assert!(!cas.sound());
}

#[test]
fn test_tick_when_should_sound_stays_on() {
    let mut cas = CarAlarmSystem::new();
    cas.sound = true;
    cas.tick();
    assert!(cas.sound());
}

#[test]
fn test_tick_when_should_turn_flash_off() {
    let mut cas = CarAlarmSystem::new();
    cas.clock = 29;
    cas.flash = true;
    cas.tick();
    assert!(!cas.flash());
}

#[test]
fn test_tick_when_flash_stays_on() {
    let mut cas = CarAlarmSystem::new();
    cas.flash = true;
    cas.tick();
    assert!(cas.flash());
}
