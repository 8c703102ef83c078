//! Decoding of embedded-controller sensor data: picking the controlling
//! temperature out of a raw sensor block, and decoding fan duty and RPM
//! readings. The raw bytes come from the EC's memory map; everything here
//! is pure computation on them.

use vstd::prelude::*;
use vstd::string::StringExecFns;

use crate::error::Error;
use crate::text::{centi_str, centi_to_string};

verus! {

/// The laptop generations whose EC memory map places the battery sensor
/// at a known index; everything else reports no battery sensor.
#[derive(Debug, Clone, Copy, PartialEq, Eq, Structural)]
pub enum PlatformKind {
    IntelGen11,
    IntelGen12,
    IntelGen13,
    IntelCoreUltra1,
    Framework12IntelGen13,
    Other,
}

/// Index of the battery temperature sensor for `platform`, where the
/// platform has a dedicated one.
pub open spec fn battery_sensor_index_spec(platform: PlatformKind) -> Option<usize> {
    match platform {
        PlatformKind::IntelGen11 => Some(3usize),
        PlatformKind::IntelGen12 => Some(3usize),
        PlatformKind::IntelGen13 => Some(3usize),
        PlatformKind::IntelCoreUltra1 => Some(2usize),
        PlatformKind::Framework12IntelGen13 => Some(3usize),
        PlatformKind::Other => None,
    }
}

/// The battery-sensor index to exclude from temperature selection on the
/// given platform.
pub fn battery_sensor_index(platform: PlatformKind) -> (r: Option<usize>)
    ensures
        r == battery_sensor_index_spec(platform),
{
    match platform {
        PlatformKind::IntelGen11 => Some(3),
        PlatformKind::IntelGen12 => Some(3),
        PlatformKind::IntelGen13 => Some(3),
        PlatformKind::IntelCoreUltra1 => Some(2),
        PlatformKind::Framework12IntelGen13 => Some(3),
        PlatformKind::Other => None,
    }
}

/// A raw sensor byte carries a reading when it is below the sentinel
/// range (absent, error, unpowered, uncalibrated) and lands on a positive
/// Celsius value after the EC's offset of 73 is taken off.
pub open spec fn sensor_usable(b: u8) -> bool {
    b < 0xFC && b > 73
}

/// The Celsius reading of a usable sensor byte.
pub open spec fn sensor_celsius(b: u8) -> int {
    b - 73
}

/// The highest Celsius reading among usable sensors, skipping the index
/// `excl` when given; `None` when no usable sensor remains.
pub open spec fn max_usable(raw: Seq<u8>, excl: Option<int>) -> Option<int>
    decreases raw.len(),
{
    if raw.len() == 0 {
        None
    } else {
        let rest = max_usable(raw.drop_last(), excl);
        let i = raw.len() - 1;
        if sensor_usable(raw.last()) && excl != Some(i) {
            match rest {
                None => Some(sensor_celsius(raw.last())),
                Some(m) => Some(
                    if sensor_celsius(raw.last()) > m {
                        sensor_celsius(raw.last())
                    } else {
                        m
                    },
                ),
            }
        } else {
            rest
        }
    }
}

/// The temperature the controller acts on, in Celsius: the hottest usable
/// sensor outside the battery sensor, the hottest overall when excluding
/// the battery leaves none, and a conservative 50 when nothing usable was
/// read at all.
pub open spec fn selected_celsius(raw: Seq<u8>, battery: Option<int>) -> int {
    match battery {
        None => match max_usable(raw, None) {
            None => 50,
            Some(m) => m,
        },
        Some(b) => match max_usable(raw, Some(b)) {
            Some(m) => m,
            None => match max_usable(raw, None) {
                None => 50,
                Some(m) => m,
            },
        },
    }
}

/// The `battery` argument of `selected_celsius`, as the exec index option.
pub open spec fn battery_view(battery: Option<usize>) -> Option<int> {
    match battery {
        None => None,
        Some(b) => Some(b as int),
    }
}

/// Selects the controlling temperature from a raw EC sensor block,
/// returned in hundredths of a degree.
pub fn select_temperature(raw: &Vec<u8>, battery: Option<usize>) -> (t: i64)
    ensures
        t == 100 * selected_celsius(raw@, battery_view(battery)),
{
    let n = raw.len();
    let mut best_all: Option<u8> = None;
    let mut best_excl: Option<u8> = None;
    let mut i: usize = 0;
    while i < n
        invariant
            i <= n,
            n == raw@.len(),
            match best_all {
                None => max_usable(raw@.take(i as int), None) is None,
                Some(v) => max_usable(raw@.take(i as int), None) == Some(v as int) && 0 < v < 0xFC
                    - 73,
            },
            match best_excl {
                None => max_usable(raw@.take(i as int), battery_view(battery)) is None,
                Some(v) => max_usable(raw@.take(i as int), battery_view(battery)) == Some(v as int)
                    && 0 < v < 0xFC - 73,
            },
        decreases n - i,
    {
        proof {
            assert(raw@.take(i + 1).drop_last() =~= raw@.take(i as int));
            assert(raw@.take(i + 1).last() == raw@[i as int]);
        }
        let b = raw[i];
        if b < 0xFC && b > 73 {
            let celsius = b - 73;
            best_all = match best_all {
                None => Some(celsius),
                Some(v) => Some(
                    if celsius > v {
                        celsius
                    } else {
                        v
                    },
                ),
            };
            let excluded = match battery {
                Some(bi) => bi == i,
                None => false,
            };
            if !excluded {
                best_excl = match best_excl {
                    None => Some(celsius),
                    Some(v) => Some(
                        if celsius > v {
                            celsius
                        } else {
                            v
                        },
                    ),
                };
            }
        }
        i = i + 1;
    }
    proof {
        assert(raw@.take(n as int) =~= raw@);
    }
    let celsius: u8 = match best_excl {
        Some(v) => v,
        None => match best_all {
            Some(v) => v,
            None => 50,
        },
    };
    (celsius as i64) * 100
}

/// The duty-cycle percentage encoded in a fan status block: its fifth
/// byte, with out-of-range raw values read as zero.
pub fn decode_fan_duty(fans: &Vec<u8>) -> (r: u32)
    requires
        fans@.len() >= 5,
    ensures
        r == if fans@[4] > 100 {
            0int
        } else {
            fans@[4] as int
        },
{
    let duty = fans[4];
    if duty > 100 {
        0
    } else {
        duty as u32
    }
}

/// The fan speed encoded little-endian in the first two bytes of a fan
/// status block.
pub fn decode_fan_rpm(fans: &Vec<u8>) -> (r: u16)
    requires
        fans@.len() >= 2,
    ensures
        r == fans@[0] + 0x100 * fans@[1],
{
    fans[0] as u16 + 0x100 * (fans[1] as u16)
}

/// Validates a temperature reading (in hundredths of a degree) against
/// the plausible Celsius range.
pub fn check_temperature_value(t: i64) -> (r: Result<i64, Error>)
    ensures
        0 <= t <= 100_00 ==> r == Result::<i64, Error>::Ok(t),
        !(0 <= t <= 100_00) ==> (r matches Err(Error::Ec(m)) && m@ == "Temperature "@ + centi_str(
            t as int,
        ) + "C is out of valid range (0-100)"@),
{
    if 0 <= t && t <= 100_00 {
        Ok(t)
    } else {
        let mut m = String::from_str("Temperature ");
        let rendered = centi_to_string(t);
        m.append(rendered.as_str());
        m.append("C is out of valid range (0-100)");
        proof {
            assert(m@ =~= "Temperature "@ + centi_str(t as int) + "C is out of valid range (0-100)"@);
        }
        Err(Error::Ec(m))
    }
}

/// The duty-cycle steps of a bounded fan ramp test: `steps` evenly spaced
/// percentages ending at or below 100.
pub fn fan_test_steps(steps: u32) -> (r: Vec<u32>)
    ensures
        r@.len() == steps,
        forall|i: int|
            0 <= i < steps ==> #[trigger] r@[i] == ({
                let unit = 100int / (if steps == 0 {
                    1int
                } else {
                    steps as int
                });
                if unit * (i + 1) > 100 {
                    100int
                } else {
                    unit * (i + 1)
                }
            }),
{
    let unit: u32 = 100 / (if steps == 0 {
        1
    } else {
        steps
    });
    let mut r: Vec<u32> = Vec::new();
    let mut i: u32 = 0;
    while i < steps
        invariant
            i <= steps,
            unit == 100int / (if steps == 0 {
                1int
            } else {
                steps as int
            }),
            unit <= 100,
            r@.len() == i,
            forall|j: int|
                0 <= j < i ==> #[trigger] r@[j] == (if unit * (j + 1) > 100 {
                    100int
                } else {
                    unit * (j + 1)
                }),
        decreases steps - i,
    {
        proof {
            assert((unit as int) * (i as int + 1) <= 100 * 0x1_0000_0000int) by (nonlinear_arith)
                requires
                    0 <= unit <= 100,
                    0 <= i < 0x1_0000_0000int,
            ;
        }
        let raw: u64 = (unit as u64) * (i as u64 + 1);
        let speed: u32 = if raw > 100 {
            100
        } else {
            raw as u32
        };
        r.push(speed);
        i = i + 1;
    }
    r
}

} // verus!
