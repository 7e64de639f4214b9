use std::cell::Cell;
use std::rc::Rc;

use ows::handler::{EventMutParam, EventParam, Handler, HandlerMut, HandlerMutParam, HandlerParam};

#[test]
fn param() {
    let mut h = EventParam::new();
    assert!(h.is_empty());
    h.fire(15);

    let first = h.add(Box::new(|_: i32| {}));
    let second = h.add(Box::new(|_: i32| {}));
    assert_eq!(2, h.len());
    assert!(!h.is_empty());

    assert!(h.remove(first));
    assert!(h.remove(second));
    assert!(h.is_empty());
}

#[test]
fn no_param_ret() {
    let mut h = Handler::new();
    assert!(!h.is_set());
    assert_eq!(40, h.fire_or(40));
    assert!(h.fire().is_none());

    h.set(Some(Box::new(|| 37)));
    assert!(h.is_set());
    assert_eq!(37, h.fire_or(40));
    assert_eq!(37, h.fire().unwrap());
}

#[test]
fn param_ret() {
    let mut h = HandlerParam::new();
    assert_eq!(
        "32 / a string",
        h.fire_or("32 / a string".to_string(), 54, "another string")
    );
    assert!(h.fire(54, "another_string").is_none());

    h.set(Some(Box::new(|n: i32, s: &str| format!("{} / {}", n, s))));
    assert!(h.is_set());
    assert_eq!(
        "54 / another string",
        h.fire_or("32 / a string".to_string(), 54, "another string")
    );
    assert_eq!("54 / another string", h.fire(54, "another string").unwrap());
}

#[test]
fn handler_no_param_ret() {
    let mut h = HandlerMut::new();
    assert!(!h.is_set());
    assert_eq!(40, h.fire_or(40));
    assert!(h.fire().is_none());

    h.set(Some(Box::new(|| 37)));
    assert!(h.is_set());
    assert_eq!(37, h.fire_or(40));
    assert_eq!(37, h.fire().unwrap());
}

#[test]
fn handler_param_ret() {
    let mut h = HandlerMutParam::new();
    assert_eq!(
        "32 / a string",
        h.fire_or("32 / a string".to_string(), 54, "another string")
    );
    assert!(h.fire(54, "another string").is_none());

    h.set(Some(Box::new(|n: i32, s: &str| format!("{} / {}", n, s))));
    assert!(h.is_set());
    assert_eq!(
        "54 / another string",
        h.fire_or("32 / a string".to_string(), 54, "another string")
    );
    assert_eq!("54 / another string", h.fire(54, "another string").unwrap());
}

#[test]
fn event_param() {
    let mut ev = EventParam::new();
    assert!(ev.is_empty());
    ev.fire(15);

    let first = ev.add(Box::new(|_: i32| {}));
    let second = ev.add(Box::new(|_: i32| {}));
    assert_eq!(2, ev.len());
    assert!(!ev.is_empty());

    assert!(ev.remove(first));
    assert!(ev.remove(second));
    assert!(ev.is_empty());
}

#[test]
fn handler() {
    let mut h = Handler::new();
    assert!(!h.is_set());
    assert_eq!(40, h.fire_or(40));
    assert!(h.fire().is_none());

    h.set(Some(Box::new(|| 37)));
    assert!(h.is_set());
    assert_eq!(37, h.fire_or(40));
    assert_eq!(37, h.fire().unwrap());
}

#[test]
fn handler_param() {
    let mut h = HandlerParam::new();
    assert_eq!(
        "32 / a string",
        h.fire_or("32 / a string".to_string(), 54, "another string")
    );
    assert!(h.fire(54, "another_string").is_none());

    h.set(Some(Box::new(|n: i32, s: &str| format!("{} / {}", n, s))));
    assert!(h.is_set());
    assert_eq!(
        "54 / another string",
        h.fire_or("32 / a string".to_string(), 54, "another string")
    );
    assert_eq!("54 / another string", h.fire(54, "another string").unwrap());
}

#[test]
fn handler_mut() {
    let mut h = HandlerMut::new();
    assert!(!h.is_set());
    assert_eq!(40, h.fire_or(40));
    assert!(h.fire().is_none());

    h.set(Some(Box::new(|| 37)));
    assert!(h.is_set());
    assert_eq!(37, h.fire_or(40));
    assert_eq!(37, h.fire().unwrap());
}

#[test]
fn handler_mut_param() {
    let mut h = HandlerMutParam::new();
    assert_eq!(
        "32 / a string",
        h.fire_or("32 / a string".to_string(), 54, "another string")
    );
    assert!(h.fire(54, "another string").is_none());

    h.set(Some(Box::new(|n: i32, s: &str| format!("{} / {}", n, s))));
    assert!(h.is_set());
    assert_eq!(
        "54 / another string",
        h.fire_or("32 / a string".to_string(), 54, "another string")
    );
    assert_eq!("54 / another string", h.fire(54, "another string").unwrap());
}

#[test]
fn event_param_removed_id_stays_gone() {
    let mut ev = EventParam::new();
    let first = ev.add(Box::new(|_: i32| {}));
    assert!(ev.remove(first));
    assert!(!ev.remove(first));
    let second = ev.add(Box::new(|_: i32| {}));
    assert_ne!(first, second);
    assert_eq!(1, ev.len());
}

#[test]
fn event_mut_param() {
    let tracer = Rc::new(Cell::new(0));

    let mut ev = EventMutParam::new();
    assert!(ev.is_empty());
    ev.fire(15);
    assert_eq!(0, tracer.get());

    let first = {
        let tracer = tracer.clone();
        ev.add(Box::new(move |n: i32| {
            let t = tracer.get();
            tracer.set(t - 2 * n);
        }))
    };
    let second = {
        let tracer = tracer.clone();
        ev.add(Box::new(move |n: i32| {
            let t = tracer.get();
            tracer.set(t + 3 * n);
        }))
    };

    assert_eq!(2, ev.len());
    assert!(!ev.is_empty());
    ev.fire(6);
    assert_eq!(6, tracer.get());

    assert!(ev.remove(first));
    ev.fire(7);
    assert_eq!(27, tracer.get());

    assert!(ev.remove(second));
    assert!(ev.is_empty());
}
