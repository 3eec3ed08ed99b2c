use vstd::prelude::*;

verus! {

/// Values that have an overflow-free strict midpoint operation.
///
/// Each value stands for the integer `as_int`; `between` returns the floor
/// of the mean of its two bounds when that lies strictly between them.
pub trait Betweenable where Self: Copy {
    /// The integer that this value stands for.
    spec fn as_int(self) -> int;

    /// The strict midpoint of `low` and `high`: absent when `high <= low + 1`,
    /// otherwise the mean rounded down, computed without forming `low + high`.
    fn between(low: Self, high: Self) -> (r: Option<Self>)
        ensures
            r is None <==> high.as_int() <= low.as_int() + 1,
            r matches Some(m) ==> m.as_int() == (low.as_int() + high.as_int()) / 2,
            r matches Some(m) ==> low.as_int() < m.as_int() < high.as_int(),
    ;
}

impl Betweenable for u8 {
    open spec fn as_int(self) -> int {
        self as int
    }

    fn between(low: u8, high: u8) -> (r: Option<u8>) {
        if high <= low || high == low + 1 {
            None
        } else {
            proof {
                assert((low >> 1) + (high >> 1) + (low & high & 1) == (low + high) / 2
                    && ((low >> 1) + (high >> 1)) as u8 == (low >> 1) + (high >> 1))
                    by (bit_vector);
            }
            Some((low >> 1) + (high >> 1) + (low & high & 1))
        }
    }
}

impl Betweenable for u16 {
    open spec fn as_int(self) -> int {
        self as int
    }

    fn between(low: u16, high: u16) -> (r: Option<u16>) {
        if high <= low || high == low + 1 {
            None
        } else {
            proof {
                assert((low >> 1) + (high >> 1) + (low & high & 1) == (low + high) / 2
                    && ((low >> 1) + (high >> 1)) as u16 == (low >> 1) + (high >> 1))
                    by (bit_vector);
            }
            Some((low >> 1) + (high >> 1) + (low & high & 1))
        }
    }
}

impl Betweenable for u32 {
    open spec fn as_int(self) -> int {
        self as int
    }

    fn between(low: u32, high: u32) -> (r: Option<u32>) {
        if high <= low || high == low + 1 {
            None
        } else {
            proof {
                assert((low >> 1) + (high >> 1) + (low & high & 1) == (low + high) / 2
                    && ((low >> 1) + (high >> 1)) as u32 == (low >> 1) + (high >> 1))
                    by (bit_vector);
            }
            Some((low >> 1) + (high >> 1) + (low & high & 1))
        }
    }
}

impl Betweenable for u64 {
    open spec fn as_int(self) -> int {
        self as int
    }

    fn between(low: u64, high: u64) -> (r: Option<u64>) {
        if high <= low || high == low + 1 {
            None
        } else {
            proof {
                assert((low >> 1) + (high >> 1) + (low & high & 1) == (low + high) / 2
                    && ((low >> 1) + (high >> 1)) as u64 == (low >> 1) + (high >> 1))
                    by (bit_vector);
            }
            Some((low >> 1) + (high >> 1) + (low & high & 1))
        }
    }
}

impl Betweenable for u128 {
    open spec fn as_int(self) -> int {
        self as int
    }

    fn between(low: u128, high: u128) -> (r: Option<u128>) {
        if high <= low || high == low + 1 {
            None
        } else {
            proof {
                assert((low >> 1) + (high >> 1) + (low & high & 1) == (low + high) / 2
                    && ((low >> 1) + (high >> 1)) as u128 == (low >> 1) + (high >> 1))
                    by (bit_vector);
            }
            Some((low >> 1) + (high >> 1) + (low & high & 1))
        }
    }
}

impl Betweenable for usize {
    open spec fn as_int(self) -> int {
        self as int
    }

    fn between(low: usize, high: usize) -> (r: Option<usize>) {
        if high <= low || high == low + 1 {
            None
        } else {
            proof {
                assert((low >> 1) + (high >> 1) + (low & high & 1) == (low + high) / 2
                    && ((low >> 1) + (high >> 1)) as usize == (low >> 1) + (high >> 1))
                    by (bit_vector);
            }
            Some((low >> 1) + (high >> 1) + (low & high & 1))
        }
    }
}

impl Betweenable for i16 {
    open spec fn as_int(self) -> int {
        self as int
    }

    fn between(low: i16, high: i16) -> (r: Option<i16>) {
        if high <= low || high == low + 1 {
            None
        } else {
            proof {
                assert((low >> 1) + (high >> 1) + (low & high & 1) == (low + high) / 2
                    && ((low >> 1) + (high >> 1)) as i16 == (low >> 1) + (high >> 1))
                    by (bit_vector);
            }
            Some((low >> 1) + (high >> 1) + (low & high & 1))
        }
    }
}

impl Betweenable for i32 {
    open spec fn as_int(self) -> int {
        self as int
    }

    fn between(low: i32, high: i32) -> (r: Option<i32>) {
        if high <= low || high == low + 1 {
            None
        } else {
            proof {
                assert((low >> 1) + (high >> 1) + (low & high & 1) == (low + high) / 2
                    && ((low >> 1) + (high >> 1)) as i32 == (low >> 1) + (high >> 1))
                    by (bit_vector);
            }
            Some((low >> 1) + (high >> 1) + (low & high & 1))
        }
    }
}

impl Betweenable for i64 {
    open spec fn as_int(self) -> int {
        self as int
    }

    fn between(low: i64, high: i64) -> (r: Option<i64>) {
        if high <= low || high == low + 1 {
            None
        } else {
            proof {
                assert((low >> 1) + (high >> 1) + (low & high & 1) == (low + high) / 2
                    && ((low >> 1) + (high >> 1)) as i64 == (low >> 1) + (high >> 1))
                    by (bit_vector);
            }
            Some((low >> 1) + (high >> 1) + (low & high & 1))
        }
    }
}

impl Betweenable for i128 {
    open spec fn as_int(self) -> int {
        self as int
    }

    fn between(low: i128, high: i128) -> (r: Option<i128>) {
        if high <= low || high == low + 1 {
            None
        } else {
            proof {
                assert((low >> 1) + (high >> 1) + (low & high & 1) == (low + high) / 2
                    && ((low >> 1) + (high >> 1)) as i128 == (low >> 1) + (high >> 1))
                    by (bit_vector);
            }
            Some((low >> 1) + (high >> 1) + (low & high & 1))
        }
    }
}

impl Betweenable for isize {
    open spec fn as_int(self) -> int {
        self as int
    }

    fn between(low: isize, high: isize) -> (r: Option<isize>) {
        if high <= low || high == low + 1 {
            None
        } else {
            proof {
                assert((low >> 1) + (high >> 1) + (low & high & 1) == (low + high) / 2
                    && ((low >> 1) + (high >> 1)) as isize == (low >> 1) + (high >> 1))
                    by (bit_vector);
            }
            Some((low >> 1) + (high >> 1) + (low & high & 1))
        }
    }
}

} // verus!
