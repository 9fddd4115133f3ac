//! Which sensors a PID reports values for.
use vstd::prelude::*;

use crate::obd::{SensorNumber, OBD};
use crate::pid::diagnostics::{bit_set, test_bit};

verus! {

/// The sensor that bit `k` of a support byte stands for (bit 0 is sensor 1).
pub open spec fn sensor_at(k: nat) -> SensorNumber {
    if k == 0 {
        SensorNumber::Sensor1
    } else if k == 1 {
        SensorNumber::Sensor2
    } else if k == 2 {
        SensorNumber::Sensor3
    } else if k == 3 {
        SensorNumber::Sensor4
    } else if k == 4 {
        SensorNumber::Sensor5
    } else if k == 5 {
        SensorNumber::Sensor6
    } else if k == 6 {
        SensorNumber::Sensor7
    } else {
        SensorNumber::Sensor8
    }
}

/// The sensors whose bits among the lowest `k` of the byte are set, in
/// order of their bits.
pub open spec fn sensors_in(byte: u8, k: nat) -> Seq<SensorNumber>
    decreases k,
{
    if k == 0 {
        Seq::empty()
    } else {
        let before = sensors_in(byte, (k - 1) as nat);
        if bit_set(byte, (k - 1) as nat) {
            before.push(sensor_at((k - 1) as nat))
        } else {
            before
        }
    }
}

fn sensor_for_bit(k: u8) -> (res: SensorNumber)
    requires
        k < 8,
    ensures
        res == sensor_at(k as nat),
{
    match k {
        0 => SensorNumber::Sensor1,
        1 => SensorNumber::Sensor2,
        2 => SensorNumber::Sensor3,
        3 => SensorNumber::Sensor4,
        4 => SensorNumber::Sensor5,
        5 => SensorNumber::Sensor6,
        6 => SensorNumber::Sensor7,
        _ => SensorNumber::Sensor8,
    }
}

impl OBD {
    /// The sensors that a support byte reports: sensor `n` when bit `n - 1`
    /// is set, in order.
    pub fn sensors_supported_for(&self, byte: u8) -> (res: Vec<SensorNumber>)
        ensures
            res@ == sensors_in(byte, 8),
    {
        let mut sensors: Vec<SensorNumber> = Vec::new();
        let mut k: u8 = 0;
        while k < 8
            invariant
                k <= 8,
                sensors@ == sensors_in(byte, k as nat),
            decreases 8 - k,
        {
            if test_bit(byte, k) {
                sensors.push(sensor_for_bit(k));
            }
            k = k + 1;
        }
        sensors
    }
}

} // verus!
