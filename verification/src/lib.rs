//! Transform chains: ordered lists of transforms that a batch of messages passes through, with
//! their validation, their metrics and the buffered variant that runs a chain behind a queue.

pub mod buffered;
pub mod builder;
pub mod chain;
pub mod channel;
pub mod meter;
pub mod text;
pub mod transforms;
pub mod validation;
pub mod wrapper;

pub use buffered::{
    BufferedChain, BufferedChainError, BufferedChainMessages, BufferedTask, Delivery, Origin,
    Submission, TaskCall, TaskNext, TaskStep,
};
pub use builder::{TransformBuilderAndMetrics, TransformChainBuilder};
pub use chain::{ChainCall, FinishedCall, Pass, TransformAndMetrics, TransformChain};
pub use channel::{BatchReceiver, BatchSender, Receipt, Refusal, ReplyReceiver, ReplySender};
pub use meter::{CounterHandle, FixedPoint, HistogramHandle};
pub use transforms::{Transform, TransformBuilder, TransformReport};
pub use wrapper::{LocalAddr, Wrapper};
