//! Delayed error messages.
//!
//! An `ErrorMessage` is a shared, immutable handle to a zero-argument
//! producer of message text. Building one is cheap; the text is computed only
//! when the message is forced. Clones share the producer, so discarding an
//! unread error costs nothing beyond dropping a reference count.
//!
//! Producers must be pure: every call returns, has no observable effect, and
//! yields the same text. Under that contract each message value has one text,
//! named by `produced_text`.

use vstd::prelude::*;

verus! {

/// A delayed message: a shared handle to a pure, zero-argument producer of
/// the message text.
#[verifier::external_body]
pub struct ErrorMessage {
    producer: std::sync::Arc<dyn Fn() -> String>,
}

/// The text that forcing a message yields. Well-defined because producers are
/// pure: every call returns the same text.
pub uninterp spec fn produced_text(m: ErrorMessage) -> Seq<char>;

/// Holds when `m`'s text is one of the texts the producer's own contract
/// admits. For a producer whose contract pins its result down, this pins the
/// message's text down too.
pub open spec fn wraps_producer<F: Fn() -> String>(producer: F, m: ErrorMessage) -> bool {
    exists|s: String| call_ensures(producer, (), s) && produced_text(m) == s@
}

/// Holds of a message in resolved form: its producer returns copies of an
/// already-computed, owned text, captured when the message was built, rather
/// than deferring to whatever context the original producer held.
pub uninterp spec fn resolved(m: ErrorMessage) -> bool;

impl ErrorMessage {
    /// Wraps a message producer without calling it.
    ///
    /// Relies on `std::sync::Arc::new` to share the producer, and on the
    /// producer being pure and total, the stated contract of this type: the
    /// message's text is then the one text the producer returns.
    #[verifier::external_body]
    pub fn new<F: Fn() -> String + 'static>(producer: F) -> (m: ErrorMessage)
        requires
            call_requires(producer, ()),
        ensures
            wraps_producer(producer, m),
    {
        ErrorMessage { producer: std::sync::Arc::new(producer) }
    }

    /// Wraps an already-computed text as a message whose producer returns a
    /// copy of it.
    ///
    /// Relies on `std::sync::Arc::new` and `String::clone`: the producer
    /// always returns a copy of `text`.
    #[verifier::external_body]
    pub(crate) fn from_text(text: String) -> (m: ErrorMessage)
        ensures
            produced_text(m) == text@,
            resolved(m),
    {
        ErrorMessage { producer: std::sync::Arc::new(move || text.clone()) }
    }

    /// Forces the message: runs the producer and returns its text.
    ///
    /// Relies on the producer being pure and total, the stated contract of
    /// this type: each call returns, and returns the message's one text.
    #[verifier::external_body]
    pub fn force(&self) -> (s: String)
        ensures
            s@ == produced_text(*self),
    {
        (self.producer)()
    }

    /// Forces the message now and returns a message in resolved form: it
    /// holds the computed text, free of whatever the original producer
    /// captured.
    pub fn evaluate(self) -> (m: ErrorMessage)
        ensures
            produced_text(m) == produced_text(self),
            resolved(m),
    {
        let s = self.force();
        ErrorMessage::from_text(s)
    }
}

impl Clone for ErrorMessage {
    /// Relies on `std::sync::Arc::clone`: the clone shares the same producer,
    /// so it yields the same text.
    #[verifier::external_body]
    fn clone(&self) -> (m: Self)
        ensures
            produced_text(m) == produced_text(*self),
    {
        ErrorMessage { producer: self.producer.clone() }
    }
}

} // verus!
