//! Fixed-size sliding windows ("n-grams") over any sequence of items, with
//! configurable padding at both ends, produced lazily in a single pass.
//!
//! The pipeline has two stages. A [`Padded`] stage puts a number of sentinel
//! items before and after what an iterator yields. An [`Ngrams`] stage cuts
//! what reaches it into overlapping windows of one size, keeping only the
//! last `n - 1` items in a rolling buffer.
//!
//! What the stages compute is stated over the sequences of [`model`].

pub mod buffer;
pub mod model;
pub mod ngrams;
pub mod pad;
pub mod padded;
pub mod padding;
pub mod upstream;

pub use buffer::RollingBuffer;
pub use ngrams::{ConfigError, Ngrams};
pub use pad::{Pad, WORD_SEP};
pub use padded::Padded;
pub use padding::{Padding, Side};
pub use upstream::Upstream;
