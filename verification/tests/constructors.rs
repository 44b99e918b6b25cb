use luigi_rs::{
    Button, Checkbox, Code, ColorPicker, Element, ElementWrapper, Error, Gauge, ImageDisplay,
    Label, MDIChild, MDIClient, Menu, Panel, Rectangle, Slider, Table, TextBox, Window,
};
use std::cell::{Cell, RefCell};

const PARENT: usize = 0x1000;
const RECORD: usize = 0x2000;

fn parent() -> ElementWrapper {
    ElementWrapper::new(PARENT)
}

#[test]
fn window_is_created_without_an_owner() {
    let seen = RefCell::new(None);
    let window = Window::new("Counter", 200, 150, 7, |owner, flags, title, width, height| {
        *seen.borrow_mut() = Some((owner, flags, title.to_vec(), width, height));
        RECORD
    })
    .unwrap();
    assert_eq!(window.raw_element(), RECORD);
    assert_eq!(seen.into_inner(), Some((0, 7, b"Counter\0".to_vec(), 200, 150)));
}

#[test]
fn window_title_with_nul_is_rejected_before_any_allocation() {
    let calls = Cell::new(0);
    let r = Window::new("Coun\0ter", 200, 150, 0, |_, _, _, _, _| {
        calls.set(calls.get() + 1);
        RECORD
    });
    assert!(matches!(r, Err(Error::InvalidString)));
    assert_eq!(calls.get(), 0);
}

#[test]
fn window_failed_allocation_is_reported() {
    let calls = Cell::new(0);
    let r = Window::new("Counter", 0, 0, 0, |_, _, _, _, _| {
        calls.set(calls.get() + 1);
        0
    });
    assert!(matches!(r, Err(Error::CreateFailed)));
    assert_eq!(calls.get(), 1);
}

#[test]
fn button_hands_parent_flags_and_terminated_label() {
    let seen = RefCell::new(None);
    let button = Button::new(&parent(), 3, "Click me!", |p, flags, label, bytes| {
        *seen.borrow_mut() = Some((p, flags, label.to_vec(), bytes));
        RECORD
    })
    .unwrap();
    assert_eq!(button.raw_element(), RECORD);
    assert_eq!(seen.into_inner(), Some((PARENT, 3, b"Click me!\0".to_vec(), -1)));
}

#[test]
fn button_label_with_nul_is_rejected_before_any_allocation() {
    let calls = Cell::new(0);
    let r = Button::new(&parent(), 0, "\0", |_, _, _, _| {
        calls.set(calls.get() + 1);
        RECORD
    });
    assert!(matches!(r, Err(Error::InvalidString)));
    assert_eq!(calls.get(), 0);
}

#[test]
fn button_failed_allocation_is_reported() {
    let r = Button::new(&parent(), 0, "ok", |_, _, _, _| 0);
    assert!(matches!(r, Err(Error::CreateFailed)));
}

#[test]
fn button_with_empty_label_is_created() {
    let seen = RefCell::new(Vec::new());
    let button = Button::new(&parent(), 0, "", |_, _, label, _| {
        *seen.borrow_mut() = label.to_vec();
        RECORD
    });
    assert!(button.is_ok());
    assert_eq!(seen.into_inner(), vec![0u8]);
}

#[test]
fn label_is_created_and_rejected_like_a_button() {
    let seen = RefCell::new(None);
    let label = Label::new(&parent(), 1, "  0", |p, flags, text, bytes| {
        *seen.borrow_mut() = Some((p, flags, text.to_vec(), bytes));
        RECORD
    })
    .unwrap();
    assert_eq!(label.raw_element(), RECORD);
    assert_eq!(seen.into_inner(), Some((PARENT, 1, b"  0\0".to_vec(), -1)));

    let calls = Cell::new(0);
    let r = Label::new(&parent(), 1, "a\0", |_, _, _, _| {
        calls.set(calls.get() + 1);
        RECORD
    });
    assert!(matches!(r, Err(Error::InvalidString)));
    assert_eq!(calls.get(), 0);
    assert!(matches!(Label::new(&parent(), 1, "a", |_, _, _, _| 0), Err(Error::CreateFailed)));
}

#[test]
fn checkbox_is_created_and_rejected_like_a_button() {
    let seen = RefCell::new(None);
    let checkbox = Checkbox::new(&parent(), 2, "Wrap", |p, flags, text, bytes| {
        *seen.borrow_mut() = Some((p, flags, text.to_vec(), bytes));
        RECORD
    })
    .unwrap();
    assert_eq!(checkbox.raw_element(), RECORD);
    assert_eq!(seen.into_inner(), Some((PARENT, 2, b"Wrap\0".to_vec(), -1)));

    let calls = Cell::new(0);
    let r = Checkbox::new(&parent(), 2, "Wr\0ap", |_, _, _, _| {
        calls.set(calls.get() + 1);
        RECORD
    });
    assert!(matches!(r, Err(Error::InvalidString)));
    assert_eq!(calls.get(), 0);
    assert!(matches!(Checkbox::new(&parent(), 2, "Wrap", |_, _, _, _| 0), Err(Error::CreateFailed)));
}

#[test]
fn table_hands_terminated_columns() {
    let seen = RefCell::new(None);
    let table = Table::new(&parent(), 4, "Name\tSize", |p, flags, columns| {
        *seen.borrow_mut() = Some((p, flags, columns.to_vec()));
        RECORD
    })
    .unwrap();
    assert_eq!(table.raw_element(), RECORD);
    assert_eq!(seen.into_inner(), Some((PARENT, 4, b"Name\tSize\0".to_vec())));

    let calls = Cell::new(0);
    let r = Table::new(&parent(), 4, "Name\0Size", |_, _, _| {
        calls.set(calls.get() + 1);
        RECORD
    });
    assert!(matches!(r, Err(Error::InvalidString)));
    assert_eq!(calls.get(), 0);
    assert!(matches!(Table::new(&parent(), 4, "Name", |_, _, _| 0), Err(Error::CreateFailed)));
}

#[test]
fn mdi_child_hands_bounds_and_terminated_title() {
    let bounds = Rectangle { l: 10, r: 110, t: 20, b: 220 };
    let seen = RefCell::new(None);
    let child = MDIChild::new(&parent(), 5, bounds, "Log", |p, flags, area, title, bytes| {
        *seen.borrow_mut() = Some((p, flags, area, title.to_vec(), bytes));
        RECORD
    })
    .unwrap();
    assert_eq!(child.raw_element(), RECORD);
    assert_eq!(seen.into_inner(), Some((PARENT, 5, bounds, b"Log\0".to_vec(), -1)));

    let calls = Cell::new(0);
    let r = MDIChild::new(&parent(), 5, bounds, "L\0g", |_, _, _, _, _| {
        calls.set(calls.get() + 1);
        RECORD
    });
    assert!(matches!(r, Err(Error::InvalidString)));
    assert_eq!(calls.get(), 0);
    assert!(matches!(
        MDIChild::new(&parent(), 5, bounds, "Log", |_, _, _, _, _| 0),
        Err(Error::CreateFailed)
    ));
}

#[test]
fn kinds_without_text_wrap_the_address_or_report_failure() {
    let seen = Cell::new((0, 0));
    let create = |p: usize, flags: u32| {
        seen.set((p, flags));
        RECORD
    };
    assert_eq!(Panel::new(&parent(), 11, create).unwrap().raw_element(), RECORD);
    assert_eq!(seen.get(), (PARENT, 11));
    assert_eq!(TextBox::new(&parent(), 12, create).unwrap().raw_element(), RECORD);
    assert_eq!(seen.get(), (PARENT, 12));
    assert_eq!(Code::new(&parent(), 13, create).unwrap().raw_element(), RECORD);
    assert_eq!(seen.get(), (PARENT, 13));
    assert_eq!(Gauge::new(&parent(), 14, create).unwrap().raw_element(), RECORD);
    assert_eq!(seen.get(), (PARENT, 14));
    assert_eq!(Slider::new(&parent(), 15, create).unwrap().raw_element(), RECORD);
    assert_eq!(seen.get(), (PARENT, 15));
    assert_eq!(MDIClient::new(&parent(), 16, create).unwrap().raw_element(), RECORD);
    assert_eq!(seen.get(), (PARENT, 16));
    assert_eq!(Menu::new(&parent(), 17, create).unwrap().raw_element(), RECORD);
    assert_eq!(seen.get(), (PARENT, 17));
    assert_eq!(ColorPicker::new(&parent(), 18, create).unwrap().raw_element(), RECORD);
    assert_eq!(seen.get(), (PARENT, 18));

    assert!(matches!(Panel::new(&parent(), 0, |_, _| 0), Err(Error::CreateFailed)));
    assert!(matches!(TextBox::new(&parent(), 0, |_, _| 0), Err(Error::CreateFailed)));
    assert!(matches!(Code::new(&parent(), 0, |_, _| 0), Err(Error::CreateFailed)));
    assert!(matches!(Gauge::new(&parent(), 0, |_, _| 0), Err(Error::CreateFailed)));
    assert!(matches!(Slider::new(&parent(), 0, |_, _| 0), Err(Error::CreateFailed)));
    assert!(matches!(MDIClient::new(&parent(), 0, |_, _| 0), Err(Error::CreateFailed)));
    assert!(matches!(Menu::new(&parent(), 0, |_, _| 0), Err(Error::CreateFailed)));
    assert!(matches!(ColorPicker::new(&parent(), 0, |_, _| 0), Err(Error::CreateFailed)));
}

#[test]
fn a_widget_can_be_the_parent_of_another() {
    let window = Window::new("Main", 800, 600, 0, |_, _, _, _, _| 0x10).unwrap();
    let seen = Cell::new(0);
    let panel = Panel::new(&window, 0, |p, _| {
        seen.set(p);
        0x20
    })
    .unwrap();
    assert_eq!(seen.get(), 0x10);
    let button = Button::new(&panel, 0, "Hello", |p, _, _, _| {
        seen.set(p);
        0x30
    })
    .unwrap();
    assert_eq!(seen.get(), 0x20);
    assert_eq!(button.raw_element(), 0x30);
}

#[test]
fn image_display_hands_a_stride_of_four_bytes_for_each_pixel() {
    let bits = [0xff0000u32, 0x00ff00, 0x0000ff, 0, 1, 2];
    let seen = RefCell::new(None);
    let image = ImageDisplay::new(&parent(), 9, &bits, 3, 2, |p, flags, pixels, w, h, stride| {
        *seen.borrow_mut() = Some((p, flags, pixels.to_vec(), w, h, stride));
        RECORD
    })
    .unwrap();
    assert_eq!(image.raw_element(), RECORD);
    assert_eq!(seen.into_inner(), Some((PARENT, 9, bits.to_vec(), 3, 2, 12)));
    assert!(matches!(
        ImageDisplay::new(&parent(), 9, &bits, 3, 2, |_, _, _, _, _, _| 0),
        Err(Error::CreateFailed)
    ));
}

#[test]
fn image_display_content_is_replaced_with_the_same_stride_rule() {
    let mut image = ImageDisplay::new(&parent(), 0, &[], 0, 0, |_, _, _, _, _, _| RECORD).unwrap();
    let bits = [5u32; 10];
    let seen = RefCell::new(None);
    image.set_content(&bits, 5, 2, |raw, pixels, w, h, stride| {
        *seen.borrow_mut() = Some((raw, pixels.to_vec(), w, h, stride));
    });
    assert_eq!(seen.into_inner(), Some((RECORD, bits.to_vec(), 5, 2, 20)));
}

#[test]
fn every_error_has_its_own_kind() {
    assert_ne!(Error::NullPointer, Error::InvalidString);
    assert_ne!(Error::InvalidString, Error::CreateFailed);
    assert_ne!(Error::CreateFailed, Error::NullPointer);
    assert_eq!(format!("{:?}", Error::InvalidString), "InvalidString");
}
