use luigi_rs::{Button, Callbacks, ElementWrapper, Menu, Shortcut, ShortcutRecord, Window};
use std::cell::{Cell, RefCell};
use std::rc::Rc;

type Boxed = Box<dyn Fn()>;

fn button() -> Button {
    Button::new(&ElementWrapper::new(0x1000), 0, "+", |_, _, _, _| 0x2000).unwrap()
}

fn counter() -> (Rc<Cell<i32>>, Boxed) {
    let count = Rc::new(Cell::new(0));
    let shared = count.clone();
    (count, Box::new(move || shared.set(shared.get() + 1)))
}

#[test]
fn click_runs_the_registered_closure_once() {
    let mut callbacks: Callbacks<Boxed> = Callbacks::new();
    let (count, callback) = counter();
    let cp = button().invoke(&mut callbacks, callback);
    assert_eq!(count.get(), 0);
    assert!(Button::invoke_handler(&callbacks, cp));
    assert_eq!(count.get(), 1);
}

#[test]
fn click_keeps_the_captured_environment() {
    let mut callbacks: Callbacks<Boxed> = Callbacks::new();
    let log = Rc::new(RefCell::new(Vec::new()));
    let shared = log.clone();
    let name = String::from("minus");
    let cp = button().invoke(&mut callbacks, Box::new(move || shared.borrow_mut().push(name.clone())));
    assert!(Button::invoke_handler(&callbacks, cp));
    assert!(Button::invoke_handler(&callbacks, cp));
    assert_eq!(*log.borrow(), vec![String::from("minus"), String::from("minus")]);
}

#[test]
fn second_callback_replaces_the_first() {
    let mut callbacks: Callbacks<Boxed> = Callbacks::new();
    let (first_count, first) = counter();
    let (second_count, second) = counter();
    let b = button();
    // The record's user data, as the toolkit holds it.
    let mut user_data = b.invoke(&mut callbacks, first);
    assert_eq!(user_data, 1);
    user_data = b.invoke(&mut callbacks, second);
    assert_eq!(user_data, 2);
    assert!(Button::invoke_handler(&callbacks, user_data));
    assert_eq!(first_count.get(), 0);
    assert_eq!(second_count.get(), 1);
}

#[test]
fn earlier_callbacks_are_never_given_up() {
    let mut callbacks: Callbacks<Boxed> = Callbacks::new();
    let (first_count, first) = counter();
    let (second_count, second) = counter();
    let one = button().invoke(&mut callbacks, first);
    let two = button().invoke(&mut callbacks, second);
    assert_ne!(one, two);
    assert_eq!(callbacks.len(), 2);
    assert!(callbacks.trampoline(one));
    assert_eq!((first_count.get(), second_count.get()), (1, 0));
    assert!(callbacks.trampoline(two));
    assert_eq!((first_count.get(), second_count.get()), (1, 1));
}

#[test]
fn unknown_user_data_runs_nothing() {
    let mut callbacks: Callbacks<Boxed> = Callbacks::new();
    assert_eq!(callbacks.len(), 0);
    assert!(!callbacks.trampoline(0));
    assert!(!callbacks.trampoline(1));
    let (count, callback) = counter();
    let cp = callbacks.register(callback);
    assert_eq!(cp, 1);
    assert!(!callbacks.trampoline(0));
    assert!(!callbacks.trampoline(2));
    assert!(!Button::invoke_handler(&callbacks, usize::MAX));
    assert_eq!(count.get(), 0);
}

#[test]
fn shortcut_becomes_a_record_that_names_its_closure() {
    let mut callbacks: Callbacks<Boxed> = Callbacks::new();
    let (other_count, other) = counter();
    callbacks.register(other);
    let (count, callback) = counter();
    let shortcut = Shortcut::new(0x51, true, false, true, callback);
    let record = shortcut.into_raw(&mut callbacks);
    assert_eq!(record, ShortcutRecord { code: 0x51, ctrl: true, shift: false, alt: true, cp: 2 });
    assert!(callbacks.trampoline(record.cp));
    assert_eq!((other_count.get(), count.get()), (0, 1));
}

#[test]
fn shortcut_keeps_a_negative_key_code() {
    let mut callbacks: Callbacks<Boxed> = Callbacks::new();
    let record = Shortcut::new(-3, false, true, false, Box::new(|| {}) as Boxed).into_raw(&mut callbacks);
    assert_eq!(record, ShortcutRecord { code: -3, ctrl: false, shift: true, alt: false, cp: 1 });
    let record = Shortcut::new(i32::MIN, false, false, false, Box::new(|| {}) as Boxed)
        .into_raw(&mut callbacks);
    assert_eq!(record.code, -2147483648);
}

#[test]
fn window_registers_a_shortcut_with_the_toolkit() {
    let mut callbacks: Callbacks<Boxed> = Callbacks::new();
    let mut window = Window::new("Main", 0, 0, 0, |_, _, _, _, _| 0x3000).unwrap();
    let (count, callback) = counter();
    let seen = RefCell::new(None);
    window.register_shortcut(&mut callbacks, Shortcut::new(0x20, false, false, false, callback), |w, record| {
        *seen.borrow_mut() = Some((w, record));
    });
    let (w, record) = seen.into_inner().unwrap();
    assert_eq!(w, 0x3000);
    assert_eq!(record, ShortcutRecord { code: 0x20, ctrl: false, shift: false, alt: false, cp: 1 });
    assert!(callbacks.trampoline(record.cp));
    assert_eq!(count.get(), 1);
}

#[test]
fn menu_item_hands_label_and_token_and_runs_on_selection() {
    let mut callbacks: Callbacks<Boxed> = Callbacks::new();
    let mut menu = Menu::new(&ElementWrapper::new(0x1000), 0, |_, _| 0x4000).unwrap();
    let (count, callback) = counter();
    let seen = RefCell::new(None);
    menu.add_item(&mut callbacks, 6, "Open", callback, |m, flags, label, bytes, cp| {
        *seen.borrow_mut() = Some((m, flags, label.to_vec(), bytes, cp));
    });
    let (m, flags, label, bytes, cp) = seen.into_inner().unwrap();
    assert_eq!((m, flags, label, bytes, cp), (0x4000, 6, b"Open\0".to_vec(), -1, 1));
    assert!(callbacks.trampoline(cp));
    assert_eq!(count.get(), 1);
}

#[test]
fn menu_item_with_unencodable_label_gets_the_empty_label() {
    let mut callbacks: Callbacks<Boxed> = Callbacks::new();
    let mut menu = Menu::new(&ElementWrapper::new(0x1000), 0, |_, _| 0x4000).unwrap();
    let seen = RefCell::new(None);
    menu.add_item(&mut callbacks, 0, "Op\0en", Box::new(|| {}), |_, _, label, bytes, cp| {
        *seen.borrow_mut() = Some((label.to_vec(), bytes, cp));
    });
    assert_eq!(seen.into_inner(), Some((vec![0u8], -1, 1)));
}

#[test]
fn menu_is_shown_by_its_own_address() {
    let menu = Menu::new(&ElementWrapper::new(0x1000), 0, |_, _| 0x4000).unwrap();
    let seen = Cell::new(0);
    menu.show(|m| seen.set(m));
    assert_eq!(seen.get(), 0x4000);
}
