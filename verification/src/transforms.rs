//! What a chain asks of its transforms and of their builders.

use tokio::sync::mpsc;
use vstd::prelude::*;

verus! {

/// A step of a chain, on messages of type `M`.
pub trait Transform<M>: Sized {
    /// Whether taking `pushed_messages_tx` can leave this transform as `after`. A transform that
    /// does not say leaves it open.
    open spec fn takes_pushed_messages_tx(
        &self,
        pushed_messages_tx: mpsc::UnboundedSender<Vec<M>>,
        after: Self,
    ) -> bool {
        true
    }

    /// Gives the transform the queue that it may push messages into which no client asked for.
    fn set_pushed_messages_tx(&mut self, pushed_messages_tx: mpsc::UnboundedSender<Vec<M>>)
        ensures
            old(self).takes_pushed_messages_tx(pushed_messages_tx, *final(self)),
    ;
}

/// What there is to know about a configured transform before any is built.
pub struct TransformReport {
    /// The name of the transform.
    pub name: &'static str,
    /// Whether the transform answers the requests itself rather than pass them on.
    pub terminating: bool,
    /// What is wrong with the configuration, a line each.
    pub problems: Vec<String>,
}

/// The configuration of a transform, from which the transforms of type `T` of any number of chains
/// are built.
pub trait TransformBuilder<T>: Send + Sync {
    /// What the other methods say about the transform, for specifications only. A builder that does
    /// not say leaves it open.
    open spec fn report(&self) -> TransformReport {
        arbitrary()
    }

    /// Whether `transform` is one that can be built from the configuration. A builder that does not
    /// say leaves it open.
    open spec fn builds(&self, transform: T) -> bool {
        true
    }

    fn build(&self) -> (transform: T)
        ensures
            self.builds(transform),
    ;

    fn get_name(&self) -> (name: &'static str)
        ensures
            name == self.report().name,
    ;

    fn is_terminating(&self) -> (terminating: bool)
        ensures
            terminating == self.report().terminating,
    ;

    fn validate(&self) -> (problems: Vec<String>)
        ensures
            crate::text::lines(problems@) == crate::text::lines(self.report().problems@),
    ;
}

} // verus!
