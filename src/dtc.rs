//! Diagnostic trouble codes, one bit per fault class.
use vstd::prelude::*;

verus! {

/// Number of fault classes that fit in one bitfield byte.
pub const DTC_CLASSES: u8 = 8;

/// The mask of fault class `dtc`.
pub open spec fn dtc_mask(dtc: u8) -> u8
    recommends
        dtc < 8,
{
    (1u8 << dtc) as u8
}

/// Whether fault class `dtc` is asserted in `bits`.
pub open spec fn dtc_is_set(bits: u8, dtc: u8) -> bool
    recommends
        dtc < 8,
{
    bits & dtc_mask(dtc) != 0
}

/// A set of asserted fault classes.
pub trait DtcBitfield: Sized {
    /// Asserts fault class `dtc`.
    fn set(&mut self, dtc: u8)
        requires
            dtc < DTC_CLASSES,
    ;

    /// Clears fault class `dtc`.
    fn clear(&mut self, dtc: u8)
        requires
            dtc < DTC_CLASSES,
    ;

    /// Clears every fault class.
    fn clear_all(&mut self);

    /// Whether fault class `dtc` is asserted.
    fn check(&self, dtc: u8) -> bool
        requires
            dtc < DTC_CLASSES,
    ;

    /// Whether any fault class is asserted.
    fn are_any_set(&self) -> bool;
}

impl DtcBitfield for u8 {
    fn set(&mut self, dtc: u8)
        ensures
            *final(self) == *old(self) | dtc_mask(dtc),
            forall|k: u8| #![trigger dtc_is_set(*final(self), k)]
                k < 8 ==> (dtc_is_set(*final(self), k) <==> (k == dtc || dtc_is_set(*old(self), k))),
    {
        let ghost before = *self;
        *self = *self | (1u8 << dtc);
        let ghost after = *self;
        assert forall|k: u8| k < 8 implies (dtc_is_set(after, k) <==> (k == dtc || dtc_is_set(before, k))) by {
            assert((after == before | ((1u8 << dtc) as u8) && dtc < 8 && k < 8) ==>
                ((after & ((1u8 << k) as u8) != 0) <==> (k == dtc || before & ((1u8 << k) as u8) != 0))) by (bit_vector);
        }
    }

    fn clear(&mut self, dtc: u8)
        ensures
            *final(self) == *old(self) & !dtc_mask(dtc),
            forall|k: u8| #![trigger dtc_is_set(*final(self), k)]
                k < 8 ==> (dtc_is_set(*final(self), k) <==> (k != dtc && dtc_is_set(*old(self), k))),
    {
        let ghost before = *self;
        *self = *self & !(1u8 << dtc);
        let ghost after = *self;
        assert forall|k: u8| k < 8 implies (dtc_is_set(after, k) <==> (k != dtc && dtc_is_set(before, k))) by {
            assert((after == before & !((1u8 << dtc) as u8) && dtc < 8 && k < 8) ==>
                ((after & ((1u8 << k) as u8) != 0) <==> (k != dtc && before & ((1u8 << k) as u8) != 0))) by (bit_vector);
        }
    }

    fn clear_all(&mut self)
        ensures
            *final(self) == 0,
    {
        *self = 0;
    }

    fn check(&self, dtc: u8) -> (r: bool)
        ensures
            r == dtc_is_set(*self, dtc),
    {
        *self & (1u8 << dtc) != 0
    }

    fn are_any_set(&self) -> (r: bool)
        ensures
            r == (*self != 0),
    {
        *self > 0
    }
}

} // verus!
