use std::cell::RefCell;
use std::rc::Rc;

use wlroots::event::{Configure, Event, EventKind, Move, Resize};
use wlroots::handle::{Handle, HandleErr};
use wlroots::handler::Handler;
use wlroots::native::NativeSurface;
use wlroots::registry::{Defect, Registry};

/// What a `Witness` saw of one call.
#[derive(Clone, Debug, PartialEq, Eq)]
struct Seen {
    method: String,
    ptr: usize,
    token: usize,
    surface: Option<usize>,
    payload: Vec<i64>,
    upgraded: bool,
    wrapped: bool,
    recovered: bool,
}

/// A handler that writes every call into a log that the test keeps.
struct Witness {
    log: Rc<RefCell<Vec<Seen>>>,
    hand_off: Option<u32>,
}

impl Witness {
    fn new(log: &Rc<RefCell<Vec<Seen>>>) -> Witness {
        Witness { log: log.clone(), hand_off: None }
    }

    fn see(
        &mut self,
        method: &str,
        compositor: &Registry<Self, u32>,
        surface: Option<Handle>,
        handle: Handle,
        payload: Vec<i64>,
    ) {
        let upgraded = handle.upgrade_and_run(compositor, |_surface| ()).is_ok();
        let wrapped = compositor.is_registered(handle.as_ptr());
        let recovered = compositor.from_existing(handle.as_ptr()).is_ok();
        self.log.borrow_mut().push(Seen {
            method: method.to_string(),
            ptr: handle.as_ptr(),
            token: handle.token().position(),
            surface: surface.map(|s| s.as_ptr()),
            payload,
            upgraded,
            wrapped,
            recovered,
        });
    }
}

impl Handler for Witness {
    type SurfaceHandler = u32;

    fn destroyed(&mut self, compositor: &Registry<Self, u32>, surface: Option<Handle>, handle: Handle) {
        self.see("destroyed", compositor, surface, handle, vec![]);
    }

    fn on_configure(
        &mut self,
        compositor: &Registry<Self, u32>,
        surface: Option<Handle>,
        handle: Handle,
        configure: &Configure,
    ) {
        let (x, y) = configure.coords();
        let (width, height) = configure.dimensions();
        let payload = vec![x as i64, y as i64, width as i64, height as i64];
        self.see("on_configure", compositor, surface, handle, payload);
    }

    fn on_move(
        &mut self,
        compositor: &Registry<Self, u32>,
        surface: Option<Handle>,
        handle: Handle,
        event: &Move,
    ) {
        let (x, y) = event.coords();
        self.see("on_move", compositor, surface, handle, vec![x as i64, y as i64]);
    }

    fn on_resize(
        &mut self,
        compositor: &Registry<Self, u32>,
        surface: Option<Handle>,
        handle: Handle,
        event: &Resize,
    ) {
        let (width, height) = event.dimensions();
        self.see("on_resize", compositor, surface, handle, vec![width as i64, height as i64]);
    }

    fn on_maximize(&mut self, compositor: &Registry<Self, u32>, surface: Option<Handle>, handle: Handle) {
        self.see("on_maximize", compositor, surface, handle, vec![]);
    }

    fn on_fullscreen(&mut self, compositor: &Registry<Self, u32>, surface: Option<Handle>, handle: Handle) {
        self.see("on_fullscreen", compositor, surface, handle, vec![]);
    }

    fn on_map(
        &mut self,
        compositor: &Registry<Self, u32>,
        surface: Option<Handle>,
        handle: Handle,
    ) -> Option<u32> {
        self.see("on_map", compositor, surface, handle, vec![]);
        self.hand_off
    }

    fn on_unmap(&mut self, compositor: &Registry<Self, u32>, surface: Option<Handle>, handle: Handle) {
        self.see("on_unmap", compositor, surface, handle, vec![]);
    }

    fn title_set(&mut self, compositor: &Registry<Self, u32>, surface: Option<Handle>, handle: Handle) {
        self.see("title_set", compositor, surface, handle, vec![]);
    }

    fn class_set(&mut self, compositor: &Registry<Self, u32>, surface: Option<Handle>, handle: Handle) {
        self.see("class_set", compositor, surface, handle, vec![]);
    }

    fn parent_set(&mut self, compositor: &Registry<Self, u32>, surface: Option<Handle>, handle: Handle) {
        self.see("parent_set", compositor, surface, handle, vec![]);
    }

    fn pid_set(&mut self, compositor: &Registry<Self, u32>, surface: Option<Handle>, handle: Handle) {
        self.see("pid_set", compositor, surface, handle, vec![]);
    }

    fn window_type_set(
        &mut self,
        compositor: &Registry<Self, u32>,
        surface: Option<Handle>,
        handle: Handle,
    ) {
        self.see("window_type_set", compositor, surface, handle, vec![]);
    }

    fn ping_timeout(&mut self, compositor: &Registry<Self, u32>, surface: Option<Handle>, handle: Handle) {
        self.see("ping_timeout", compositor, surface, handle, vec![]);
    }
}

fn methods(log: &Rc<RefCell<Vec<Seen>>>) -> Vec<String> {
    log.borrow().iter().map(|seen| seen.method.clone()).collect()
}

const R: usize = 0x7f00_1000;

#[test]
fn resize_reaches_the_handler_with_size_and_handle() {
    let log = Rc::new(RefCell::new(Vec::new()));
    let mut registry: Registry<Witness, u32> = Registry::new();
    let handle = registry.wrap(R, NativeSurface::default()).unwrap().weak_reference();
    assert!(matches!(registry.attach(R, Witness::new(&log)), Ok(None)));

    let outcome = registry.dispatch(R, Event::Resize(Resize { width: 800, height: 600 }));

    let seen = log.borrow();
    assert_eq!(seen.len(), 1);
    assert_eq!(seen[0].method, "on_resize");
    assert_eq!(seen[0].payload, vec![800, 600]);
    assert_eq!(seen[0].ptr, R);
    assert_eq!(seen[0].token, handle.token().position());
    assert_eq!(seen[0].surface, None);
    assert!(seen[0].upgraded);

    let delivery = outcome.delivery.unwrap();
    assert_eq!(delivery.event, Event::Resize(Resize { width: 800, height: 600 }));
    assert_eq!(delivery.handle.as_ptr(), R);
    assert_eq!(delivery.handle.token(), handle.token());
    assert!(delivery.surface.is_none());
    assert!(outcome.secondary.is_none());
    assert!(outcome.unspliced.is_empty());
    assert!(registry.is_live(&handle));
}

#[test]
fn destroy_without_handler_releases_state_block() {
    let mut registry: Registry<Witness, u32> = Registry::new();
    let handle = registry.wrap(R, NativeSurface::default()).unwrap().weak_reference();
    assert!(registry.is_live(&handle));

    let outcome = registry.dispatch(R, Event::Destroy);

    assert!(outcome.delivery.is_none());
    assert!(outcome.secondary.is_none());
    assert_eq!(outcome.unspliced.len(), 14);
    assert!(!registry.is_registered(R));
    assert!(registry.handle_of(R).is_none());

    let mut ran = false;
    let result = handle.upgrade_and_run(&registry, |_surface| {
        ran = true;
    });
    assert_eq!(result, Err(HandleErr::AlreadyDropped));
    assert!(!ran);
}

#[test]
fn map_unmap_destroy_reach_the_handler_in_that_order_once_each() {
    let log = Rc::new(RefCell::new(Vec::new()));
    let mut registry: Registry<Witness, u32> = Registry::new();
    registry.wrap(R, NativeSurface::default()).unwrap();
    registry.attach(R, Witness::new(&log)).unwrap();

    let mapped = registry.dispatch(R, Event::MapNotify);
    let unmapped = registry.dispatch(R, Event::UnmapNotify);
    let destroyed = registry.dispatch(R, Event::Destroy);

    assert_eq!(methods(&log), vec!["on_map", "on_unmap", "destroyed"]);
    assert_eq!(mapped.delivery.unwrap().event, Event::MapNotify);
    assert_eq!(unmapped.delivery.unwrap().event, Event::UnmapNotify);
    assert_eq!(destroyed.delivery.unwrap().event, Event::Destroy);
    assert!(mapped.unspliced.is_empty());
    assert!(unmapped.unspliced.is_empty());
    assert_eq!(destroyed.unspliced.len(), 14);
    let seen = log.borrow();
    assert!(seen[0].upgraded);
    assert!(seen[1].upgraded);
    assert!(!seen[2].upgraded);
}

#[test]
fn from_existing_on_unwrapped_pointer_is_refused() {
    let mut registry: Registry<Witness, u32> = Registry::new();
    let other = registry.wrap(R, NativeSurface::default()).unwrap().weak_reference();

    assert!(matches!(registry.from_existing(0x2000), Err(Defect::UnregisteredNative)));

    assert!(!registry.is_registered(0x2000));
    assert!(registry.handle_of(0x2000).is_none());
    assert!(registry.is_registered(R));
    assert!(registry.is_live(&other));
    assert_eq!(registry.handle_of(R).unwrap().token(), other.token());
}

#[test]
fn every_handle_fails_to_upgrade_after_destroy() {
    let log = Rc::new(RefCell::new(Vec::new()));
    let mut registry: Registry<Witness, u32> = Registry::new();
    let mut handles = Vec::new();
    handles.push(registry.wrap(R, NativeSurface::default()).unwrap().weak_reference());
    registry.attach(R, Witness::new(&log)).unwrap();
    for _ in 0..5 {
        handles.push(registry.from_existing(R).unwrap().weak_reference());
        handles.push(registry.handle_of(R).unwrap());
    }
    for handle in &handles {
        assert_eq!(handle.upgrade_and_run(&registry, |surface| surface.as_ptr()), Ok(R));
    }

    registry.dispatch(R, Event::Destroy);

    for handle in &handles {
        let result = handle.upgrade_and_run(&registry, |surface| surface.as_ptr());
        assert_eq!(result, Err(HandleErr::AlreadyDropped));
    }
    // The address is used again by a new window: the old handles stay dead.
    let fresh = registry.wrap(R, NativeSurface::default()).unwrap().weak_reference();
    assert!(registry.is_live(&fresh));
    for handle in &handles {
        assert!(!registry.is_live(handle));
        assert_ne!(handle.token(), fresh.token());
        assert_eq!(*handle, fresh);
    }
}

#[test]
fn upgrade_fails_inside_the_destroy_callback() {
    let log = Rc::new(RefCell::new(Vec::new()));
    let mut registry: Registry<Witness, u32> = Registry::new();
    registry.wrap(R, NativeSurface::default()).unwrap();
    registry.attach(R, Witness::new(&log)).unwrap();
    registry.dispatch(R, Event::Configure(Configure { x: -5, y: 7, width: 10, height: 20 }));
    registry.dispatch(R, Event::Destroy);
    let seen = log.borrow();
    assert_eq!(seen.len(), 2);
    assert_eq!(seen[0].method, "on_configure");
    assert_eq!(seen[0].payload, vec![-5, 7, 10, 20]);
    assert!(seen[0].upgraded);
    assert_eq!(seen[1].method, "destroyed");
    assert!(!seen[1].upgraded);
}

#[test]
fn the_state_block_is_in_place_while_destroyed_runs() {
    let log = Rc::new(RefCell::new(Vec::new()));
    let mut registry: Registry<Witness, u32> = Registry::new();
    let handle = registry.wrap(R, NativeSurface::default()).unwrap().weak_reference();
    registry.attach(R, Witness::new(&log)).unwrap();
    registry.dispatch(R, Event::TitleSet);
    let outcome = registry.dispatch(R, Event::Destroy);
    {
        let seen = log.borrow();
        assert_eq!(seen[0].method, "title_set");
        assert!(seen[0].wrapped && seen[0].upgraded && seen[0].recovered);
        assert_eq!(seen[1].method, "destroyed");
        assert!(seen[1].wrapped);
        assert!(!seen[1].upgraded);
        assert!(!seen[1].recovered);
        assert_eq!(seen[1].token, handle.token().position());
    }
    assert_eq!(outcome.unspliced.len(), 14);
    assert!(!registry.is_registered(R));
    assert!(!registry.is_alive(handle.token()));
}

#[test]
fn destroy_is_told_exactly_once() {
    let log = Rc::new(RefCell::new(Vec::new()));
    let mut registry: Registry<Witness, u32> = Registry::new();
    registry.wrap(R, NativeSurface::default()).unwrap();
    registry.attach(R, Witness::new(&log)).unwrap();

    let first = registry.dispatch(R, Event::Destroy);
    let second = registry.dispatch(R, Event::Destroy);
    let third = registry.dispatch(R, Event::UnmapNotify);

    assert!(first.delivery.is_some());
    assert!(second.delivery.is_none());
    assert!(second.unspliced.is_empty());
    assert!(third.delivery.is_none());
    assert_eq!(methods(&log), vec!["destroyed"]);
}

#[test]
fn events_before_a_handler_is_attached_are_dropped() {
    let log = Rc::new(RefCell::new(Vec::new()));
    let mut registry: Registry<Witness, u32> = Registry::new();
    registry.wrap(R, NativeSurface::default()).unwrap();

    let early = registry.dispatch(R, Event::MapNotify);
    assert!(early.delivery.is_none());
    assert!(early.secondary.is_none());

    registry.attach(R, Witness::new(&log)).unwrap();
    let late = registry.dispatch(R, Event::UnmapNotify);
    assert!(late.delivery.is_some());
    assert_eq!(methods(&log), vec!["on_unmap"]);

    let handler = registry.detach(R);
    assert!(handler.is_some());
    let after = registry.dispatch(R, Event::TitleSet);
    assert!(after.delivery.is_none());
    assert_eq!(methods(&log), vec!["on_unmap"]);
}

#[test]
fn events_on_an_unwrapped_pointer_change_nothing() {
    let mut registry: Registry<Witness, u32> = Registry::new();
    let handle = registry.wrap(R, NativeSurface::default()).unwrap().weak_reference();
    let outcome = registry.dispatch(0x4000, Event::Destroy);
    assert!(outcome.delivery.is_none());
    assert!(outcome.unspliced.is_empty());
    assert!(registry.is_live(&handle));
}

#[test]
fn on_map_hands_a_secondary_handler_back() {
    let log = Rc::new(RefCell::new(Vec::new()));
    let mut registry: Registry<Witness, u32> = Registry::new();
    registry.wrap(R, NativeSurface::default()).unwrap();
    let mut witness = Witness::new(&log);
    witness.hand_off = Some(77);
    registry.attach(R, witness).unwrap();

    let resized = registry.dispatch(R, Event::Resize(Resize { width: 1, height: 2 }));
    assert!(resized.secondary.is_none());
    let mapped = registry.dispatch(R, Event::MapNotify);
    assert_eq!(mapped.secondary, Some(77));
}

#[test]
fn every_kind_reaches_its_own_method() {
    let log = Rc::new(RefCell::new(Vec::new()));
    let mut registry: Registry<Witness, u32> = Registry::new();
    registry.wrap(R, NativeSurface::default()).unwrap();
    registry.attach(R, Witness::new(&log)).unwrap();
    let events = vec![
        Event::Configure(Configure { x: 1, y: 2, width: 3, height: 4 }),
        Event::Move(Move { x: -100, y: 250 }),
        Event::Resize(Resize { width: 640, height: 480 }),
        Event::Maximize,
        Event::Fullscreen,
        Event::MapNotify,
        Event::UnmapNotify,
        Event::TitleSet,
        Event::ClassSet,
        Event::ParentSet,
        Event::PidSet,
        Event::WindowTypeSet,
        Event::PingTimeout,
        Event::Destroy,
    ];
    for event in &events {
        let outcome = registry.dispatch(R, *event);
        assert_eq!(outcome.delivery.unwrap().event, *event);
    }
    assert_eq!(
        methods(&log),
        vec![
            "on_configure",
            "on_move",
            "on_resize",
            "on_maximize",
            "on_fullscreen",
            "on_map",
            "on_unmap",
            "title_set",
            "class_set",
            "parent_set",
            "pid_set",
            "window_type_set",
            "ping_timeout",
            "destroyed",
        ]
    );
    assert_eq!(log.borrow()[1].payload, vec![-100, 250]);
    assert_eq!(log.borrow()[2].payload, vec![640, 480]);
}

#[test]
fn a_deregistered_kind_is_no_longer_heard() {
    let log = Rc::new(RefCell::new(Vec::new()));
    let mut registry: Registry<Witness, u32> = Registry::new();
    registry.wrap(R, NativeSurface::default()).unwrap();
    registry.attach(R, Witness::new(&log)).unwrap();

    assert!(registry.deregister(R, EventKind::RequestMove));
    assert!(!registry.deregister(R, EventKind::RequestMove));
    assert!(!registry.deregister(0x4000, EventKind::RequestMove));

    let moved = registry.dispatch(R, Event::Move(Move { x: 1, y: 1 }));
    assert!(moved.delivery.is_none());
    let resized = registry.dispatch(R, Event::Resize(Resize { width: 1, height: 1 }));
    assert!(resized.delivery.is_some());

    // The destroy record is not given up.
    assert!(!registry.deregister(R, EventKind::Destroy));
    assert!(!registry.deregister(R, EventKind::Destroy));

    let destroyed = registry.dispatch(R, Event::Destroy);
    assert!(destroyed.delivery.is_some());
    assert!(!registry.is_registered(R));
    assert_eq!(destroyed.unspliced.len(), 13);
    assert!(!destroyed.unspliced.contains(&EventKind::RequestMove));
    assert_eq!(destroyed.unspliced[0], EventKind::Destroy);
    assert_eq!(destroyed.unspliced[1], EventKind::RequestConfigure);
    assert_eq!(destroyed.unspliced[2], EventKind::RequestResize);
    assert_eq!(destroyed.unspliced[12], EventKind::PingTimeout);
}

#[test]
fn the_handler_is_told_of_the_backing_surface() {
    let log = Rc::new(RefCell::new(Vec::new()));
    let mut registry: Registry<Witness, u32> = Registry::new();
    let backing: usize = 0x9000;
    registry.wrap_surface(backing).unwrap();
    let mut native = NativeSurface::default();
    native.surface = backing;
    registry.wrap(R, native).unwrap();
    registry.attach(R, Witness::new(&log)).unwrap();

    let outcome = registry.dispatch(R, Event::MapNotify);
    assert_eq!(outcome.delivery.unwrap().surface.unwrap().as_ptr(), backing);
    assert_eq!(log.borrow()[0].surface, Some(backing));

    registry.sync(R, NativeSurface::default()).unwrap();
    let outcome = registry.dispatch(R, Event::UnmapNotify);
    assert!(outcome.delivery.unwrap().surface.is_none());
    assert_eq!(log.borrow()[1].surface, None);
}

#[test]
fn nothing_is_told_about_a_lineage_after_its_destroy() {
    let old_log = Rc::new(RefCell::new(Vec::new()));
    let new_log = Rc::new(RefCell::new(Vec::new()));
    let mut registry: Registry<Witness, u32> = Registry::new();
    let old = registry.wrap(R, NativeSurface::default()).unwrap().weak_reference();
    registry.attach(R, Witness::new(&old_log)).unwrap();
    registry.dispatch(R, Event::MapNotify);
    registry.dispatch(R, Event::UnmapNotify);
    registry.dispatch(R, Event::Destroy);

    // The toolkit makes a new window at the same address.
    let new = registry.wrap(R, NativeSurface::default()).unwrap().weak_reference();
    registry.attach(R, Witness::new(&new_log)).unwrap();
    registry.dispatch(R, Event::MapNotify);
    registry.dispatch(R, Event::UnmapNotify);

    assert_eq!(methods(&old_log), vec!["on_map", "on_unmap", "destroyed"]);
    assert_eq!(methods(&new_log), vec!["on_map", "on_unmap"]);
    for seen in old_log.borrow().iter() {
        assert_eq!(seen.token, old.token().position());
    }
    for seen in new_log.borrow().iter() {
        assert_eq!(seen.token, new.token().position());
    }
    assert_ne!(old.token(), new.token());
    assert!(!registry.is_live(&old));
    assert!(registry.is_live(&new));
}

#[test]
fn an_unmap_that_never_fires_is_never_told() {
    let log = Rc::new(RefCell::new(Vec::new()));
    let mut registry: Registry<Witness, u32> = Registry::new();
    registry.wrap(R, NativeSurface::default()).unwrap();
    registry.attach(R, Witness::new(&log)).unwrap();
    registry.dispatch(R, Event::TitleSet);
    registry.dispatch(R, Event::Destroy);
    assert_eq!(methods(&log), vec!["title_set", "destroyed"]);
}

#[test]
fn the_handler_stays_attached_between_notifications() {
    let log = Rc::new(RefCell::new(Vec::new()));
    let mut registry: Registry<Witness, u32> = Registry::new();
    registry.wrap(R, NativeSurface::default()).unwrap();
    let mut witness = Witness::new(&log);
    witness.hand_off = Some(5);
    registry.attach(R, witness).unwrap();
    for _ in 0..3 {
        let outcome = registry.dispatch(R, Event::MapNotify);
        assert_eq!(outcome.secondary, Some(5));
    }
    assert_eq!(methods(&log), vec!["on_map", "on_map", "on_map"]);
    let handler = registry.detach(R).unwrap();
    assert_eq!(handler.hand_off, Some(5));
}

#[test]
fn windows_do_not_hear_each_other() {
    let log_a = Rc::new(RefCell::new(Vec::new()));
    let log_b = Rc::new(RefCell::new(Vec::new()));
    let mut registry: Registry<Witness, u32> = Registry::new();
    let a = registry.wrap(R, NativeSurface::default()).unwrap().weak_reference();
    let b = registry.wrap(R + 0x100, NativeSurface::default()).unwrap().weak_reference();
    registry.attach(R, Witness::new(&log_a)).unwrap();
    registry.attach(R + 0x100, Witness::new(&log_b)).unwrap();

    registry.dispatch(R, Event::Fullscreen);
    registry.dispatch(R, Event::Destroy);
    registry.dispatch(R + 0x100, Event::Maximize);

    assert_eq!(methods(&log_a), vec!["on_fullscreen", "destroyed"]);
    assert_eq!(methods(&log_b), vec!["on_maximize"]);
    assert!(!registry.is_live(&a));
    assert!(registry.is_live(&b));
    assert_eq!(log_b.borrow()[0].ptr, R + 0x100);
}

#[test]
fn what_on_map_hands_back_is_attached_to_the_backing_surface() {
    let log = Rc::new(RefCell::new(Vec::new()));
    let mut registry: Registry<Witness, u32> = Registry::new();
    let backing = registry.wrap_surface(0x9000).unwrap();
    assert!(matches!(registry.attach_surface(0x9000, 1), Ok(None)));
    let mut native = NativeSurface::default();
    native.surface = 0x9000;
    registry.wrap(R, native).unwrap();
    let mut witness = Witness::new(&log);
    witness.hand_off = Some(77);
    registry.attach(R, witness).unwrap();

    let resized = registry.dispatch(R, Event::Resize(Resize { width: 1, height: 2 }));
    assert!(resized.handed_to.is_none());
    assert!(resized.secondary.is_none());

    let mapped = registry.dispatch(R, Event::MapNotify);
    let named = mapped.handed_to.unwrap();
    assert_eq!((named.as_ptr(), named.token()), (0x9000, backing.token()));
    assert!(mapped.secondary.is_none());
    assert_eq!(mapped.delivery.unwrap().surface.unwrap().as_ptr(), 0x9000);
    // The window keeps its own handler; the display surface has the new one.
    assert_eq!(methods(&log), vec!["on_resize", "on_map"]);
    assert_eq!(registry.detach_surface(0x9000), Some(77));
    let handler = registry.detach(R).unwrap();
    assert_eq!(handler.hand_off, Some(77));
}

#[test]
fn a_map_that_hands_nothing_back_leaves_the_backing_surface_alone() {
    let log = Rc::new(RefCell::new(Vec::new()));
    let mut registry: Registry<Witness, u32> = Registry::new();
    registry.wrap_surface(0x9000).unwrap();
    registry.attach_surface(0x9000, 5).unwrap();
    let mut native = NativeSurface::default();
    native.surface = 0x9000;
    registry.wrap(R, native).unwrap();
    registry.attach(R, Witness::new(&log)).unwrap();
    let mapped = registry.dispatch(R, Event::MapNotify);
    assert!(mapped.handed_to.is_none());
    assert!(mapped.secondary.is_none());
    assert_eq!(registry.detach_surface(0x9000), Some(5));
}

#[test]
fn a_display_surface_lives_until_its_own_destroy() {
    let mut registry: Registry<Witness, u32> = Registry::new();
    let backing = registry.wrap_surface(0x9000).unwrap();
    assert_eq!(backing.as_ptr(), 0x9000);
    assert!(registry.is_surface_registered(0x9000));
    assert!(registry.is_surface_live(&backing));
    assert!(!registry.is_live(&backing));
    assert!(matches!(registry.wrap_surface(0x9000), Err(Defect::DoubleWrap)));
    let found = registry.surface_handle_of(0x9000).unwrap();
    assert_eq!(found.token(), backing.token());
    assert!(matches!(registry.attach_surface(0x9000, 3), Ok(None)));
    assert!(matches!(registry.attach_surface(0x9000, 4), Ok(Some(3))));
    assert!(matches!(registry.attach_surface(0x9100, 4), Err(Defect::UnregisteredNative)));

    // The window that it backs is destroyed: the display surface stays.
    let mut native = NativeSurface::default();
    native.surface = 0x9000;
    registry.wrap(R, native).unwrap();
    registry.dispatch(R, Event::Destroy);
    assert!(registry.is_surface_live(&backing));

    assert!(registry.destroy_surface(0x9000));
    assert!(!registry.destroy_surface(0x9000));
    assert!(!registry.is_surface_registered(0x9000));
    assert!(!registry.is_surface_live(&backing));
    assert!(!registry.is_alive(backing.token()));
    assert!(registry.surface_handle_of(0x9000).is_none());
    assert!(registry.detach_surface(0x9000).is_none());
    let again = registry.wrap_surface(0x9000).unwrap();
    assert_ne!(again.token(), backing.token());
    assert!(!registry.is_surface_live(&backing));
}
