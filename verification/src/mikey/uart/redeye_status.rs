//! The level of the serial (Redeye) line.
use vstd::prelude::*;

verus! {

/// The level of the serial line.
#[derive(Clone, Copy, Debug, PartialEq, Eq, Structural)]
pub enum RedeyeStatus {
    Low,
    High,
}

impl From<u8> for RedeyeStatus {
    fn from(value: u8) -> (r: Self) {
        if value == 0 {
            RedeyeStatus::Low
        } else {
            RedeyeStatus::High
        }
    }
}

impl vstd::std_specs::convert::FromSpecImpl<u8> for RedeyeStatus {
    open spec fn obeys_from_spec() -> bool {
        true
    }

    open spec fn from_spec(v: u8) -> RedeyeStatus {
        if v == 0 {
            RedeyeStatus::Low
        } else {
            RedeyeStatus::High
        }
    }
}

impl From<bool> for RedeyeStatus {
    fn from(value: bool) -> (r: Self) {
        if value {
            RedeyeStatus::High
        } else {
            RedeyeStatus::Low
        }
    }
}

impl vstd::std_specs::convert::FromSpecImpl<bool> for RedeyeStatus {
    open spec fn obeys_from_spec() -> bool {
        true
    }

    open spec fn from_spec(v: bool) -> RedeyeStatus {
        if v {
            RedeyeStatus::High
        } else {
            RedeyeStatus::Low
        }
    }
}

impl From<RedeyeStatus> for u8 {
    fn from(val: RedeyeStatus) -> (r: Self) {
        match val {
            RedeyeStatus::High => 1,
            RedeyeStatus::Low => 0,
        }
    }
}

impl vstd::std_specs::convert::FromSpecImpl<RedeyeStatus> for u8 {
    open spec fn obeys_from_spec() -> bool {
        true
    }

    open spec fn from_spec(v: RedeyeStatus) -> u8 {
        match v {
            RedeyeStatus::High => 1,
            RedeyeStatus::Low => 0,
        }
    }
}

impl core::ops::Not for RedeyeStatus {
    type Output = Self;

    fn not(self) -> (r: Self) {
        match self {
            RedeyeStatus::High => RedeyeStatus::Low,
            RedeyeStatus::Low => RedeyeStatus::High,
        }
    }
}

impl vstd::std_specs::ops::NotSpecImpl for RedeyeStatus {
    open spec fn obeys_not_spec() -> bool {
        true
    }

    open spec fn not_req(self) -> bool {
        true
    }

    open spec fn not_spec(self) -> RedeyeStatus {
        match self {
            RedeyeStatus::High => RedeyeStatus::Low,
            RedeyeStatus::Low => RedeyeStatus::High,
        }
    }
}

/// A level converts to its bit and back unchanged.
pub proof fn lemma_redeye_roundtrip(s: RedeyeStatus)
    ensures
        <RedeyeStatus as vstd::std_specs::convert::FromSpec<u8>>::from_spec(
            <u8 as vstd::std_specs::convert::FromSpec<RedeyeStatus>>::from_spec(s),
        ) == s,
{
}

} // verus!
