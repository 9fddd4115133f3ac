//! Air values: the commanded secondary air status.
use vstd::prelude::*;

verus! {

/// Where secondary air is commanded to go (PID `0112`).
#[derive(Debug, Clone, Copy)]
pub enum SecondaryAirStatus {
    /// Its description.
    Status(&'static str),
}

/// The description of a secondary air status code.
pub open spec fn secondary_air_status_text(num: u8) -> &'static str {
    match num {
        1u8 => "Upstream",
        2u8 => "Downstream of catalytic converter",
        4u8 => "From the outside atmosphere or off",
        8u8 => "Pump commanded on for diagnostics",
        _ => "Unknown secondary air status",
    }
}

impl SecondaryAirStatus {
    /// The secondary air status for a code.
    pub fn from_u8(num: u8) -> (res: Self)
        ensures
            res == SecondaryAirStatus::Status(secondary_air_status_text(num)),
    {
        let text: &'static str = match num {
            1u8 => "Upstream",
            2u8 => "Downstream of catalytic converter",
            4u8 => "From the outside atmosphere or off",
            8u8 => "Pump commanded on for diagnostics",
            _ => "Unknown secondary air status",
        };
        SecondaryAirStatus::Status(text)
    }
}

} // verus!
