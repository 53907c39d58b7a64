use rust_note::screen::{Button, Draw, OtherScreen, Screen};

struct Counted<'a> {
    drawn: &'a std::cell::Cell<u32>,
}

impl<'a> Draw for Counted<'a> {
    fn draw(&self) {
        self.drawn.set(self.drawn.get() + 1);
    }
}

struct Tagged {
    tag: u32,
    log: std::rc::Rc<std::cell::RefCell<Vec<u32>>>,
}

impl Draw for Tagged {
    fn draw(&self) {
        self.log.borrow_mut().push(self.tag);
    }
}

fn button(label: &str) -> Button {
    Button { width: 50, height: 10, label: label.to_string() }
}

#[test]
fn screen_draws_components_of_any_type() {
    let log = std::rc::Rc::new(std::cell::RefCell::new(Vec::new()));
    let screen = Screen {
        components: vec![
            Box::new(Tagged { tag: 1, log: log.clone() }),
            Box::new(button("OK")),
            Box::new(Tagged { tag: 2, log: log.clone() }),
        ],
    };
    screen.run();
    assert_eq!(*log.borrow(), vec![1, 2]);
}

#[test]
fn screen_draws_each_component_once_per_run() {
    let log = std::rc::Rc::new(std::cell::RefCell::new(Vec::new()));
    let screen = Screen {
        components: vec![
            Box::new(Tagged { tag: 7, log: log.clone() }),
            Box::new(Tagged { tag: 8, log: log.clone() }),
        ],
    };
    screen.run();
    screen.run();
    assert_eq!(*log.borrow(), vec![7, 8, 7, 8]);
}

#[test]
fn other_screen_draws_every_component() {
    let drawn = std::cell::Cell::new(0);
    let screen = OtherScreen {
        components: vec![Counted { drawn: &drawn }, Counted { drawn: &drawn }, Counted { drawn: &drawn }],
    };
    screen.run();
    assert_eq!(drawn.get(), 3);
}

#[test]
fn empty_screens_draw_nothing() {
    Screen { components: Vec::new() }.run();
    OtherScreen::<Button> { components: Vec::new() }.run();
}

#[test]
fn button_keeps_its_fields() {
    let ok = button("OK");
    ok.draw();
    assert_eq!(ok.width, 50);
    assert_eq!(ok.height, 10);
    assert_eq!(ok.label, "OK");
    OtherScreen { components: vec![ok, button("Cancel")] }.run();
}
