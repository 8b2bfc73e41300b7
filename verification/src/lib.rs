mod cursor;
mod laws;
mod ops;

pub use cursor::IterTake;
pub use cursor::IterTakeExt;
pub use cursor::Take;
pub use laws::lemma_unstable_take_multiset_parity;
pub use ops::decides;
pub use ops::keep_all;
pub use ops::negated;
pub use ops::take_all;
pub use ops::take_matching;
pub use ops::take_range;
