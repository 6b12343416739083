use std::cell::RefCell;
use std::rc::Rc;

use linux_camera::error::DeviceError;
use linux_camera::manager::{FoundCamera, LinuxCameraManager};

type Manager = LinuxCameraManager<&'static str, u8, u16>;

fn found(id: &str, link: u8) -> Option<FoundCamera<u8>> {
    Some(FoundCamera { id: id.to_string(), link })
}

fn manager() -> Manager {
    let mut manager = Manager::init(Ok("system")).unwrap();
    let find = |_: &Manager| vec![found("a", 1), None, found("b", 2), found("a", 3), None];
    assert_eq!(manager.refresh(find), Ok(()));
    manager
}

fn devices(manager: &Manager) -> Vec<(String, u8)> {
    manager.list().iter().map(|device| (device.id().to_string(), device.link)).collect()
}

#[test]
fn a_new_manager_has_no_devices() {
    let manager = Manager::init(Ok("system")).unwrap();
    assert_eq!(manager.mgr, "system");
    assert!(manager.list().is_empty());
    assert!(manager.index(0).is_none());
    assert!(manager.lookup("a").is_none());
    assert_eq!(manager.change_handler, None);
}

#[test]
fn a_manager_that_cannot_be_opened_is_reported() {
    let error = Manager::init(Err("Os { code: 2 }".to_string())).unwrap_err();
    assert_eq!(error, DeviceError::OpenFailed("Os { code: 2 }".to_string()));
}

#[test]
fn a_refresh_finds_the_cameras_in_order() {
    let manager = manager();
    assert_eq!(devices(&manager), vec![("a".to_string(), 1), ("b".to_string(), 2), ("a".to_string(), 3)]);
    assert!(manager.list().iter().all(|device| !device.running()));
}

#[test]
fn a_refresh_lets_go_of_the_devices_from_before() {
    let mut manager = manager();
    manager.set_change_handler(5).unwrap();
    assert_eq!(manager.refresh(|_| vec![None, found("c", 9)]), Ok(()));
    assert_eq!(devices(&manager), vec![("c".to_string(), 9)]);
    assert_eq!(manager.mgr, "system");
    assert_eq!(manager.change_handler, Some(5));
    assert_eq!(manager.refresh(|_| vec![]), Ok(()));
    assert!(manager.list().is_empty());
}

#[test]
fn a_lookup_gives_the_first_device() {
    let manager = manager();
    assert_eq!(manager.lookup("a").map(|device| device.link), Some(1));
    assert_eq!(manager.lookup("b").map(|device| device.link), Some(2));
    assert!(manager.lookup("c").is_none());
    assert!(manager.lookup("").is_none());
    assert!(manager.lookup("aa").is_none());
}

#[test]
fn places_are_counted_from_zero() {
    let manager = manager();
    assert_eq!(manager.index(0).map(|device| device.link), Some(1));
    assert_eq!(manager.index(2).map(|device| device.link), Some(3));
    assert!(manager.index(3).is_none());
    assert!(manager.index(usize::MAX).is_none());
}

#[test]
fn devices_can_be_changed() {
    let mut manager = manager();
    manager.lookup_mut("a").unwrap().link = 10;
    manager.index_mut(2).unwrap().link = 30;
    assert!(manager.lookup_mut("c").is_none());
    assert!(manager.index_mut(3).is_none());
    assert_eq!(devices(&manager), vec![("a".to_string(), 10), ("b".to_string(), 2), ("a".to_string(), 30)]);
}

#[test]
fn a_manager_lets_go_of_its_devices() {
    let mut manager = manager();
    manager.uninit();
    assert!(manager.list().is_empty());
    assert_eq!(manager.mgr, "system");
}

#[test]
fn the_last_change_handler_counts() {
    let mut manager = manager();
    assert_eq!(manager.set_change_handler(1), Ok(()));
    assert_eq!(manager.set_change_handler(2), Ok(()));
    assert_eq!(manager.change_handler, Some(2));
    assert_eq!(manager.list().len(), 3);
}

#[test]
fn found_cameras_take_the_place_of_all_devices() {
    let mut manager = manager();
    manager.adopt(vec![found("d", 4), None]);
    assert_eq!(devices(&manager), vec![("d".to_string(), 4)]);
}

/// A link that notes when it goes.
struct Noted {
    name: &'static str,
    notes: Rc<RefCell<Vec<String>>>,
}

impl Drop for Noted {
    fn drop(&mut self) {
        self.notes.borrow_mut().push(format!("drop {}", self.name));
    }
}

#[test]
fn old_devices_are_gone_before_new_ones_are_made() {
    let notes = Rc::new(RefCell::new(Vec::new()));
    let mut manager = LinuxCameraManager::<&str, Noted, u16>::init(Ok("system")).unwrap();
    let make = |name: &'static str| {
        notes.borrow_mut().push(format!("make {}", name));
        Some(FoundCamera { id: name.to_string(), link: Noted { name, notes: Rc::clone(&notes) } })
    };
    manager.refresh(|_| vec![make("a"), make("b")]).unwrap();
    manager
        .refresh(|manager| {
            assert_eq!(manager.mgr, "system");
            assert!(manager.list().is_empty());
            vec![make("c")]
        })
        .unwrap();
    assert_eq!(*notes.borrow(), vec!["make a", "make b", "drop a", "drop b", "make c"]);
}

#[test]
fn the_camera_list_is_searched_once() {
    let mut manager = manager();
    let places = vec![found("e", 5)];
    let mut searches = 0;
    manager
        .refresh(|_| {
            searches += 1;
            places
        })
        .unwrap();
    assert_eq!(searches, 1);
    assert_eq!(devices(&manager), vec![("e".to_string(), 5)]);
}
