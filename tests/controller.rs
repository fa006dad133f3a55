use rustlab::controller::{
    Controller, DiskBasedController, HDBasedController, HDBasedController2, VM,
};

struct RecordingController {
    events: Vec<u32>,
    saves: usize,
}

impl Controller for RecordingController {
    fn save_event(&mut self, event_id: u32) {
        println!("Mock: Saving events (id: {})", event_id);
        self.saves += 1;
        self.events.push(event_id);
    }

    fn get_events(&self) -> Vec<u32> {
        println!("Mock: Fetching events...");
        self.events.clone()
    }
}

#[test]
fn test_controller() {
    let mock = RecordingController { events: Vec::new(), saves: 0 };
    let mut vm = VM { controller: Box::new(mock) };

    vm.save_event(1);
    vm.save_event(12);
    assert_eq!(vm.get_events(), vec![1, 12]);
    assert_eq!(vm.controller.saves, 2);
}

#[test]
fn test_controller_save_event() {
    let mut controller = HDBasedController::new(42);
    controller.save_event(1);
    let events = controller.get_events();
    println!("events: {:?}", events);
    assert_eq!(controller.inner, 42);
    assert!(events.is_empty());
}

#[test]
fn disk_stub_keeps_nothing() {
    let mut vm = VM { controller: Box::new(DiskBasedController {}) };
    vm.save_event(3);
    vm.save_event(42);
    assert!(vm.get_events().is_empty());
}

#[test]
fn second_stub_keeps_nothing() {
    let mut c = HDBasedController2::new(7);
    c.save_event(5);
    assert_eq!(c.inner, 7);
    assert!(c.get_events().is_empty());
    assert!(c.get_events_it().is_empty());
}
