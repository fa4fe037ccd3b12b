use std::cell::Cell;
use std::rc::Rc;

use pom::decimal::decimal_string;
use pom::error::Error;
use pom::message::ErrorMessage;

fn msg(text: &str) -> ErrorMessage {
    let owned = text.to_string();
    ErrorMessage::new(move || owned.clone())
}

fn counting_msg(text: &str, counter: &Rc<Cell<usize>>) -> ErrorMessage {
    let owned = text.to_string();
    let counter = Rc::clone(counter);
    ErrorMessage::new(move || {
        counter.set(counter.get() + 1);
        owned.clone()
    })
}

#[test]
fn eq_same_variant_ignores_payload() {
    let a = Error::Mismatch { message: msg("a"), position: 1 };
    let b = Error::Mismatch { message: msg("b"), position: 99 };
    assert!(a == b);
}

#[test]
fn eq_different_variants_regardless_of_payload() {
    let a = Error::Mismatch { message: msg("same"), position: 4 };
    let b = Error::Conversion { message: msg("same"), position: 4 };
    assert!(a != b);
    let c = Error::Incomplete;
    assert!(a != c);
    assert!(c == Error::Incomplete);
}

#[test]
fn eq_wrappers_ignore_inner() {
    let a = Error::Expect {
        message: msg("x"),
        position: 0,
        inner: Box::new(Error::Incomplete),
    };
    let b = Error::Expect {
        message: msg("y"),
        position: 7,
        inner: Box::new(Error::Conversion { message: msg("z"), position: 1 }),
    };
    assert!(a == b);
    let c = Error::Custom { message: msg("c"), position: 2, inner: None };
    let d = Error::Custom {
        message: msg("d"),
        position: 3,
        inner: Some(Box::new(Error::Incomplete)),
    };
    assert!(c == d);
    assert!(a != c);
}

#[test]
fn display_expect_example() {
    let e = Error::Expect {
        message: msg("expected digit"),
        position: 3,
        inner: Box::new(Error::Mismatch {
            message: msg("'a' is not a digit"),
            position: 3,
        }),
    };
    assert_eq!(e.render(), "expected digit at 3: Mismatch at 3: 'a' is not a digit");
}

#[test]
fn display_custom_without_inner() {
    let e = Error::Custom { message: msg("bad config"), position: 0, inner: None };
    assert_eq!(e.render(), "bad config at 0");
}

#[test]
fn display_custom_with_incomplete_inner() {
    let e = Error::Custom {
        message: msg("bad config"),
        position: 0,
        inner: Some(Box::new(Error::Incomplete)),
    };
    assert_eq!(e.render(), "bad config at 0, (inner: Incomplete)");
}

#[test]
fn display_incomplete_and_conversion() {
    assert_eq!(Error::Incomplete.render(), "Incomplete");
    let e = Error::Conversion { message: msg("not a number"), position: 7 };
    assert_eq!(e.render(), "Conversion failed at 7: not a number");
}

#[test]
fn evaluate_preserves_structure() {
    let e = Error::Expect {
        message: msg("expected item"),
        position: 5,
        inner: Box::new(Error::Custom {
            message: msg("caller note"),
            position: 2,
            inner: Some(Box::new(Error::Conversion {
                message: msg("overflow"),
                position: 7,
            })),
        }),
    };
    let r = e.evaluate();
    match r {
        Error::Expect { message, position, inner } => {
            assert_eq!(message.force(), "expected item");
            assert_eq!(position, 5);
            match *inner {
                Error::Custom { message, position, inner: Some(inner) } => {
                    assert_eq!(message.force(), "caller note");
                    assert_eq!(position, 2);
                    match *inner {
                        Error::Conversion { message, position } => {
                            assert_eq!(message.force(), "overflow");
                            assert_eq!(position, 7);
                        }
                        _ => panic!("inner variant changed"),
                    }
                }
                _ => panic!("middle variant changed"),
            }
        }
        _ => panic!("root variant changed"),
    }
}

#[test]
fn evaluate_preserves_leaves_and_empty_custom() {
    let r = Error::Incomplete.evaluate();
    assert!(matches!(r, Error::Incomplete));
    let r = Error::Mismatch { message: msg("m"), position: 11 }.evaluate();
    match r {
        Error::Mismatch { message, position } => {
            assert_eq!(message.force(), "m");
            assert_eq!(position, 11);
        }
        _ => panic!("variant changed"),
    }
    let r = Error::Custom { message: msg("c"), position: 0, inner: None }.evaluate();
    match r {
        Error::Custom { inner, .. } => assert!(inner.is_none()),
        _ => panic!("variant changed"),
    }
}

#[test]
fn render_and_evaluate_agree() {
    let e = Error::Expect {
        message: msg("expected list"),
        position: 9,
        inner: Box::new(Error::Custom {
            message: msg("bad entry"),
            position: 4,
            inner: Some(Box::new(Error::Mismatch {
                message: msg("no bracket"),
                position: 4,
            })),
        }),
    };
    let before = e.render();
    let after = e.evaluate().render();
    assert_eq!(before, after);
}

#[test]
fn resolving_one_clone_leaves_the_other_delayed() {
    let counter = Rc::new(Cell::new(0));
    let first = Error::Mismatch {
        message: counting_msg("shared", &counter),
        position: 1,
    };
    let second = first.clone();
    assert_eq!(counter.get(), 0);
    let resolved = first.evaluate();
    assert_eq!(counter.get(), 1);
    // The resolved error holds captured text: rendering it does not run the
    // original producer again.
    assert_eq!(resolved.render(), "Mismatch at 1: shared");
    assert_eq!(counter.get(), 1);
    // The other clone is still delayed and pays its own forcing cost.
    let _ = second.evaluate();
    assert_eq!(counter.get(), 2);
}

#[test]
fn evaluate_forces_each_producer_exactly_once() {
    let counters: Vec<Rc<Cell<usize>>> =
        (0..3).map(|_| Rc::new(Cell::new(0))).collect();
    let tree = Error::Expect {
        message: counting_msg("outer", &counters[0]),
        position: 2,
        inner: Box::new(Error::Expect {
            message: counting_msg("middle", &counters[1]),
            position: 1,
            inner: Box::new(Error::Expect {
                message: counting_msg("inner", &counters[2]),
                position: 0,
                inner: Box::new(Error::Incomplete),
            }),
        }),
    };
    for counter in &counters {
        assert_eq!(counter.get(), 0);
    }
    let _ = tree.evaluate();
    for counter in &counters {
        assert_eq!(counter.get(), 1);
    }
}

#[test]
fn force_runs_the_producer_every_time() {
    let counter = Rc::new(Cell::new(0));
    let m = counting_msg("text", &counter);
    assert_eq!(m.force(), "text");
    assert_eq!(m.force(), "text");
    assert_eq!(counter.get(), 2);
}

#[test]
fn message_evaluate_captures_the_text() {
    let counter = Rc::new(Cell::new(0));
    let m = counting_msg("kept", &counter);
    let captured = m.evaluate();
    assert_eq!(counter.get(), 1);
    assert_eq!(captured.force(), "kept");
    assert_eq!(captured.force(), "kept");
    assert_eq!(counter.get(), 1);
}

#[test]
fn message_clones_share_the_producer() {
    let counter = Rc::new(Cell::new(0));
    let m = counting_msg("one", &counter);
    let n = m.clone();
    assert_eq!(n.force(), "one");
    assert_eq!(m.force(), "one");
    assert_eq!(counter.get(), 2);
}

#[test]
fn decimal_rendering() {
    assert_eq!(decimal_string(0), "0");
    assert_eq!(decimal_string(9), "9");
    assert_eq!(decimal_string(10), "10");
    assert_eq!(decimal_string(907), "907");
    assert_eq!(decimal_string(usize::MAX), usize::MAX.to_string());
}

#[test]
fn render_positions_in_decimal() {
    let e = Error::Mismatch { message: msg("m"), position: 1234567890 };
    assert_eq!(e.render(), "Mismatch at 1234567890: m");
}
