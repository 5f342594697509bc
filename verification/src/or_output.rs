use vstd::prelude::*;

verus! {

/// The outcome of racing seven computations: which one finished first, with
/// its result.
pub enum OrOutput7<T1, T2, T3, T4, T5, T6, T7> {
    One(T1),
    Two(T2),
    Three(T3),
    Four(T4),
    Five(T5),
    Sixth(T6),
    Seventh(T7),
}

} // verus!
