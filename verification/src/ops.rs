//! Fallible versions of the operator traits of `core::ops`.
//!
//! These do not change how operator syntax dispatches: a caller invokes
//! the fallible method explicitly, as in `12u8.try_add(13)`.

mod arith;
mod bit;
mod index;

pub use arith::TryAdd;
pub use arith::TryAddAssign;
pub use arith::TryDiv;
pub use arith::TryDivAssign;
pub use arith::TryMul;
pub use arith::TryMulAssign;
pub use arith::TryNeg;
pub use arith::TryRem;
pub use arith::TryRemAssign;
pub use arith::TrySub;
pub use arith::TrySubAssign;
pub use bit::TryBitAnd;
pub use bit::TryBitAndAssign;
pub use bit::TryBitOr;
pub use bit::TryBitOrAssign;
pub use bit::TryBitXor;
pub use bit::TryBitXorAssign;
pub use bit::TryNot;
pub use bit::TryShl;
pub use bit::TryShlAssign;
pub use bit::TryShr;
pub use bit::TryShrAssign;
pub use index::TryIndex;
pub use index::TryIndexMut;
