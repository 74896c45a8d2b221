//! Host utilities: the fixed timestamp that test contexts start from, and
//! an initialize-once lazy cell.

use crate::timestamp::Timestamp;
use vstd::prelude::*;

verus! {

/// Nanoseconds since the Unix epoch at Sun Jan 01 2023 00:00:00 GMT+0000.
pub const YEAR_2023_NANOS: u64 = 1_672_531_200 * 1_000_000_000;

/// The timestamp of the beginning of year 2023.
///
/// Test contexts are initialized with this one fixed latest timestamp so
/// that two contexts agree on time: had each taken the clock's own now,
/// the second would sit ahead of the first and the first could not accept
/// the second's latest header.
pub fn year_2023() -> (r: Timestamp)
    ensures
        r.nanoseconds == YEAR_2023_NANOS,
{
    Timestamp::from_nanoseconds(YEAR_2023_NANOS)
}

/// Relies on std::sync::OnceLock being a thread-safe cell that can be
/// written at most once; its value is opaque here.
#[verifier::external_type_specification]
#[verifier::external_body]
#[verifier::reject_recursive_types(T)]
pub struct ExOnceLock<T>(std::sync::OnceLock<T>);

/// Relies on std::sync::OnceLock::new: creates an empty cell.
#[verifier::external_body]
fn new_once_lock<T>() -> std::sync::OnceLock<T> {
    std::sync::OnceLock::new()
}

/// A lazily initialized cell: the factory runs at most once, on the first
/// read, and the computed value is returned ever after.
#[verifier::reject_recursive_types(T)]
pub struct LazyLock<T, F = fn() -> T> {
    once: std::sync::OnceLock<T>,
    factory: F,
}

impl<T, F> LazyLock<T, F> where F: Fn() -> T {
    /// The factory the lock was built with.
    pub closed spec fn spec_factory(&self) -> F {
        self.factory
    }

    /// Wraps a factory; nothing is computed yet.
    pub fn new(factory: F) -> (r: LazyLock<T, F>)
        ensures
            r.spec_factory() == factory,
    {
        LazyLock { once: new_once_lock(), factory }
    }

    /// Relies on std::sync::OnceLock::get_or_init: it stores the
    /// closure's result on the first call and returns the stored value
    /// from then on. The cell is private and only this method fills it,
    /// always with this lock's own factory, so every value read here is
    /// one the factory returned.
    #[verifier::external_body]
    pub fn get(&self) -> (r: &T)
        requires
            call_requires(self.spec_factory(), ()),
        ensures
            call_ensures(self.spec_factory(), (), *r),
    {
        self.once.get_or_init(|| (self.factory)())
    }
}

} // verus!
