//! Normalization of OCPP sampled values into meter readings.

use vstd::prelude::*;
use crate::components::CurrentMeterReading;
use crate::ocpp_types::MeterValueSampledValue;
use crate::text::{text_eq, parse_thousandths, decimal_thousandths};

verus! {

/// Whether an optional text is present and equal to `t`.
pub open spec fn text_is(o: Option<String>, t: Seq<char>) -> bool {
    o is Some && o->0@ == t
}

/// A value in thousandths of a unit, brought to thousandths of the base
/// unit: multiplied by 1000 when the unit is the kilo unit; `None` when the
/// result does not fit an `i64`.
pub open spec fn to_milli_base(v: int, kilo: bool) -> Option<int> {
    let x = if kilo { v * 1000 } else { v };
    if i64::MIN <= x <= i64::MAX { Some(x) } else { None }
}

/// The base-unit thousandths a sampled value denotes, if its text parses.
pub open spec fn sampled_milli(sv: MeterValueSampledValue, kilo_unit: Seq<char>) -> Option<int> {
    match decimal_thousandths(sv.value@) {
        Some(v) => to_milli_base(v, text_is(sv.unit, kilo_unit)),
        None => None,
    }
}

/// A reading after one sampled value: active power import (W unless the
/// unit is `kW`) sets the power, the energy import register (Wh unless the
/// unit is `kWh`) sets the energy; other measurands and unparsable values
/// leave the reading as it is.
pub open spec fn sample_applied(r: CurrentMeterReading, sv: MeterValueSampledValue) -> CurrentMeterReading {
    if text_is(sv.measurand, "Power.Active.Import"@) {
        match sampled_milli(sv, "kW"@) {
            Some(x) => CurrentMeterReading { power_milliwatts: x as i64, ..r },
            None => r,
        }
    } else if text_is(sv.measurand, "Energy.Active.Import.Register"@) {
        match sampled_milli(sv, "kWh"@) {
            Some(x) => CurrentMeterReading { energy_milliwatt_hours: x as i64, ..r },
            None => r,
        }
    } else {
        r
    }
}

/// A reading after the sampled values, in order.
pub open spec fn samples_applied(r: CurrentMeterReading, svs: Seq<MeterValueSampledValue>) -> CurrentMeterReading
    decreases svs.len(),
{
    if svs.len() == 0 {
        r
    } else {
        sample_applied(samples_applied(r, svs.drop_last()), svs.last())
    }
}

fn opt_text_is(o: &Option<String>, t: &str) -> (r: bool)
    ensures
        r == text_is(*o, t@),
{
    match o {
        Some(s) => text_eq(s.as_str(), t),
        None => false,
    }
}

fn read_milli(sv: &MeterValueSampledValue, kilo_unit: &str) -> (r: Option<i64>)
    ensures
        r is Some <==> sampled_milli(*sv, kilo_unit@) is Some,
        r is Some ==> r->0 == sampled_milli(*sv, kilo_unit@)->0,
{
    match parse_thousandths(sv.value.as_str()) {
        Some(v) => {
            if opt_text_is(&sv.unit, kilo_unit) {
                v.checked_mul(1000)
            } else {
                Some(v)
            }
        },
        None => None,
    }
}

/// Applies sampled values to a reading, in order.
pub fn apply_sampled_values(reading: &mut CurrentMeterReading, svs: &Vec<MeterValueSampledValue>)
    ensures
        *final(reading) == samples_applied(*old(reading), svs@),
{
    let mut i: usize = 0;
    while i < svs.len()
        invariant
            i <= svs@.len(),
            *reading == samples_applied(*old(reading), svs@.subrange(0, i as int)),
        decreases svs@.len() - i,
    {
        assert(svs@.subrange(0, i + 1).drop_last() =~= svs@.subrange(0, i as int));
        let sv = &svs[i];
        if opt_text_is(&sv.measurand, "Power.Active.Import") {
            match read_milli(sv, "kW") {
                Some(x) => {
                    reading.power_milliwatts = x;
                },
                None => {},
            }
        } else if opt_text_is(&sv.measurand, "Energy.Active.Import.Register") {
            match read_milli(sv, "kWh") {
                Some(x) => {
                    reading.energy_milliwatt_hours = x;
                },
                None => {},
            }
        }
        i = i + 1;
    }
    assert(svs@.subrange(0, svs@.len() as int) =~= svs@);
}

} // verus!
