//! The parse error tree.
//!
//! An `Error` carries a taxonomy tag, the input position it arose at, and for
//! the context-wrapping variants a nested cause. The same type serves both
//! phases of an error's life: freshly built with delayed messages during
//! backtracking, and after `evaluate` with every message forced to its text.

use vstd::prelude::*;

use crate::decimal::decimal_string;
use crate::decimal::decimal_text;
use crate::message::ErrorMessage;
use crate::message::produced_text;
use crate::message::resolved;

verus! {

/// A parse failure.
///
/// `Incomplete` reports input that ended mid-production and carries no
/// message or position. `Mismatch` and `Conversion` are leaf failures at a
/// position. `Expect` and `Custom` wrap a cause with added context; the chain
/// is built bottom-up and never mutated, so it is a tree with at most one
/// child per node.
#[allow(inconsistent_fields)]
pub enum Error {
    Incomplete,
    Mismatch { message: ErrorMessage, position: usize },
    Conversion { message: ErrorMessage, position: usize },
    Expect { message: ErrorMessage, position: usize, inner: Box<Error> },
    Custom { message: ErrorMessage, position: usize, inner: Option<Box<Error>> },
}

/// The taxonomy tag of an error, apart from its payload.
pub enum Tag {
    Incomplete,
    Mismatch,
    Conversion,
    Expect,
    Custom,
}

/// The tag of an error's root node.
pub open spec fn tag(e: Error) -> Tag {
    match e {
        Error::Incomplete => Tag::Incomplete,
        Error::Mismatch { .. } => Tag::Mismatch,
        Error::Conversion { .. } => Tag::Conversion,
        Error::Expect { .. } => Tag::Expect,
        Error::Custom { .. } => Tag::Custom,
    }
}

/// Holds when two errors are structurally identical: node for node the same
/// variant and position, with messages that force to the same text. The
/// relation leaves the message producers free, so it ties a delayed error
/// both to its resolved form and to its clones.
pub open spec fn equivalent(a: Error, b: Error) -> bool
    decreases a,
{
    match a {
        Error::Incomplete => b == Error::Incomplete,
        Error::Mismatch { message, position } => {
            &&& b matches Error::Mismatch { message: bm, position: bp }
            &&& produced_text(bm) == produced_text(message)
            &&& bp == position
        },
        Error::Conversion { message, position } => {
            &&& b matches Error::Conversion { message: bm, position: bp }
            &&& produced_text(bm) == produced_text(message)
            &&& bp == position
        },
        Error::Expect { message, position, inner } => {
            &&& b matches Error::Expect { message: bm, position: bp, inner: bi }
            &&& produced_text(bm) == produced_text(message)
            &&& bp == position
            &&& equivalent(*inner, *bi)
        },
        Error::Custom { message, position, inner } => {
            &&& b matches Error::Custom { message: bm, position: bp, inner: bi }
            &&& produced_text(bm) == produced_text(message)
            &&& bp == position
            &&& match (inner, bi) {
                (None, None) => true,
                (Some(ai), Some(ci)) => equivalent(*ai, *ci),
                _ => false,
            }
        },
    }
}

/// Holds of an error in resolved form: every message in the tree holds an
/// already-computed, owned text. Such a value is detached from whatever the
/// original producers captured, so it can outlive the parse that made it.
pub open spec fn fully_resolved(e: Error) -> bool
    decreases e,
{
    match e {
        Error::Incomplete => true,
        Error::Mismatch { message, .. } => resolved(message),
        Error::Conversion { message, .. } => resolved(message),
        Error::Expect { message, inner, .. } => resolved(message) && fully_resolved(*inner),
        Error::Custom { message, inner, .. } => resolved(message) && match inner {
            None => true,
            Some(i) => fully_resolved(*i),
        },
    }
}

impl Clone for Error {
    /// The clone is structurally identical to the original; each cloned
    /// message shares its producer, so it forces to the same text.
    fn clone(&self) -> (r: Self)
        ensures
            equivalent(*self, r),
        decreases *self,
    {
        match self {
            Error::Incomplete => Error::Incomplete,
            Error::Mismatch { message, position } => Error::Mismatch {
                message: message.clone(),
                position: *position,
            },
            Error::Conversion { message, position } => Error::Conversion {
                message: message.clone(),
                position: *position,
            },
            Error::Expect { message, position, inner } => Error::Expect {
                message: message.clone(),
                position: *position,
                inner: Box::new((**inner).clone()),
            },
            Error::Custom { message, position, inner } => Error::Custom {
                message: message.clone(),
                position: *position,
                inner: match inner {
                    None => None,
                    Some(i) => Some(Box::new((**i).clone())),
                },
            },
        }
    }
}

impl Error {
    /// Resolves the error: forces every message in the tree, each exactly
    /// once, and rebuilds the tree around the computed texts. The variant and
    /// position structure is preserved exactly; only the message payloads
    /// change, and each to the text its producer yields.
    pub fn evaluate(self) -> (r: Error)
        ensures
            equivalent(self, r),
            fully_resolved(r),
        decreases self,
    {
        match self {
            Error::Incomplete => Error::Incomplete,
            Error::Mismatch { message, position } => Error::Mismatch {
                message: message.evaluate(),
                position,
            },
            Error::Conversion { message, position } => Error::Conversion {
                message: message.evaluate(),
                position,
            },
            Error::Expect { message, position, inner } => Error::Expect {
                message: message.evaluate(),
                position,
                inner: Box::new((*inner).evaluate()),
            },
            Error::Custom { message, position, inner } => Error::Custom {
                message: message.evaluate(),
                position,
                inner: match inner {
                    None => None,
                    Some(i) => Some(Box::new((*i).evaluate())),
                },
            },
        }
    }
}

/// The display text of an error, by per-variant template:
/// `Incomplete` alone; `"Mismatch at <position>: <message>"`;
/// `"Conversion failed at <position>: <message>"`;
/// `"<message> at <position>: <inner>"` for `Expect`; and
/// `"<message> at <position>"` for `Custom`, with `", (inner: <inner>)"`
/// appended when a cause is present.
pub open spec fn rendered(e: Error) -> Seq<char>
    decreases e,
{
    match e {
        Error::Incomplete => "Incomplete"@,
        Error::Mismatch { message, position } => "Mismatch at "@ + decimal_text(position as int)
            + ": "@ + produced_text(message),
        Error::Conversion { message, position } => "Conversion failed at "@ + decimal_text(
            position as int,
        ) + ": "@ + produced_text(message),
        Error::Expect { message, position, inner } => produced_text(message) + " at "@
            + decimal_text(position as int) + ": "@ + rendered(*inner),
        Error::Custom { message, position, inner: Some(i) } => produced_text(message) + " at "@
            + decimal_text(position as int) + ", (inner: "@ + rendered(*i) + ")"@,
        Error::Custom { message, position, inner: None } => produced_text(message) + " at "@
            + decimal_text(position as int),
    }
}

impl Error {
    /// Formats the error for reading. On a delayed error this forces each
    /// message transiently, without changing the error itself; the text is
    /// the same one its resolved form yields.
    pub fn render(&self) -> (s: String)
        ensures
            s@ == rendered(*self),
        decreases *self,
    {
        match self {
            Error::Incomplete => String::from_str("Incomplete"),
            Error::Mismatch { message, position } => {
                let msg = message.force();
                let pos = decimal_string(*position);
                String::from_str("Mismatch at ").concat(pos.as_str()).concat(": ").concat(
                    msg.as_str(),
                )
            },
            Error::Conversion { message, position } => {
                let msg = message.force();
                let pos = decimal_string(*position);
                String::from_str("Conversion failed at ").concat(pos.as_str()).concat(
                    ": ",
                ).concat(msg.as_str())
            },
            Error::Expect { message, position, inner } => {
                let msg = message.force();
                let pos = decimal_string(*position);
                let cause = inner.render();
                msg.concat(" at ").concat(pos.as_str()).concat(": ").concat(cause.as_str())
            },
            Error::Custom { message, position, inner: Some(i) } => {
                let msg = message.force();
                let pos = decimal_string(*position);
                let cause = i.render();
                msg.concat(" at ").concat(pos.as_str()).concat(", (inner: ").concat(
                    cause.as_str(),
                ).concat(")")
            },
            Error::Custom { message, position, inner: None } => {
                let msg = message.force();
                let pos = decimal_string(*position);
                msg.concat(" at ").concat(pos.as_str())
            },
        }
    }
}

/// The variant-and-position skeleton of an error: everything about it except
/// its message payloads.
#[allow(inconsistent_fields)]
pub enum Shape {
    Incomplete,
    Mismatch { position: nat },
    Conversion { position: nat },
    Expect { position: nat, inner: Box<Shape> },
    Custom { position: nat, inner: Option<Box<Shape>> },
}

/// The skeleton of an error: its variant tags and positions, at every depth.
pub open spec fn shape(e: Error) -> Shape
    decreases e,
{
    match e {
        Error::Incomplete => Shape::Incomplete,
        Error::Mismatch { position, .. } => Shape::Mismatch { position: position as nat },
        Error::Conversion { position, .. } => Shape::Conversion { position: position as nat },
        Error::Expect { position, inner, .. } => Shape::Expect {
            position: position as nat,
            inner: Box::new(shape(*inner)),
        },
        Error::Custom { position, inner, .. } => Shape::Custom {
            position: position as nat,
            inner: match inner {
                None => None,
                Some(i) => Some(Box::new(shape(*i))),
            },
        },
    }
}

/// Law: structurally equivalent errors have the same skeleton. In particular
/// `evaluate` preserves the variant tag and position of every node, to any
/// depth, for all five variants.
pub proof fn lemma_equivalent_same_shape(a: Error, b: Error)
    requires
        equivalent(a, b),
    ensures
        shape(b) == shape(a),
    decreases a,
{
    match a {
        Error::Incomplete => {},
        Error::Mismatch { .. } => {},
        Error::Conversion { .. } => {},
        Error::Expect { inner, .. } => {
            match b {
                Error::Expect { inner: bi, .. } => {
                    lemma_equivalent_same_shape(*inner, *bi);
                },
                _ => {},
            }
        },
        Error::Custom { inner, .. } => {
            match (inner, b) {
                (Some(ai), Error::Custom { inner: Some(ci), .. }) => {
                    lemma_equivalent_same_shape(*ai, *ci);
                },
                _ => {},
            }
        },
    }
}

/// Law: structurally equivalent errors display as the same text. In
/// particular forcing messages through `render` on a delayed error and
/// rendering its `evaluate`d form produce identical text.
pub proof fn lemma_equivalent_same_rendering(a: Error, b: Error)
    requires
        equivalent(a, b),
    ensures
        rendered(b) == rendered(a),
    decreases a,
{
    match a {
        Error::Incomplete => {},
        Error::Mismatch { .. } => {},
        Error::Conversion { .. } => {},
        Error::Expect { inner, .. } => {
            match b {
                Error::Expect { inner: bi, .. } => {
                    lemma_equivalent_same_rendering(*inner, *bi);
                },
                _ => {},
            }
        },
        Error::Custom { inner, .. } => {
            match (inner, b) {
                (Some(ai), Error::Custom { inner: Some(ci), .. }) => {
                    lemma_equivalent_same_rendering(*ai, *ci);
                },
                _ => {},
            }
        },
    }
}

impl PartialEq for Error {
    /// Tag-only equality: two errors are equal exactly when their root nodes
    /// are the same variant, whatever their messages, positions and causes.
    fn eq(&self, other: &Error) -> (r: bool) {
        match (self, other) {
            (Error::Incomplete, Error::Incomplete) => true,
            (Error::Mismatch { .. }, Error::Mismatch { .. }) => true,
            (Error::Conversion { .. }, Error::Conversion { .. }) => true,
            (Error::Expect { .. }, Error::Expect { .. }) => true,
            (Error::Custom { .. }, Error::Custom { .. }) => true,
            _ => false,
        }
    }
}

impl vstd::std_specs::cmp::PartialEqSpecImpl for Error {
    open spec fn obeys_eq_spec() -> bool {
        true
    }

    open spec fn eq_spec(&self, other: &Error) -> bool {
        tag(*self) == tag(*other)
    }
}

} // verus!
