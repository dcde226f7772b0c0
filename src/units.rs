use vstd::prelude::*;
use vstd::string::*;
use crate::text::{append_fixed2, fixed2_text};

verus! {

/// The unit a temperature is expressed in.
#[derive(Clone, Copy, Debug, PartialEq, Eq, Structural)]
pub enum TemperatureUnits {
    Celsuis,
    Fahrenheit,
}

/// Fahrenheit in thousandths of a degree from Celsius in thousandths,
/// `32 + c * 9 / 5`, rounded down.
pub open spec fn fahrenheit_of(c: int) -> int {
    32000 + (9 * c) / 5
}

/// Celsius in thousandths of a degree from Fahrenheit in thousandths,
/// `(f - 32) * 5 / 9`, rounded down.
pub open spec fn celsius_of(f: int) -> int {
    ((f - 32000) * 5) / 9
}

/// Whether a Celsius value converts to a Fahrenheit value that an `i64` holds.
pub open spec fn fahrenheit_fits(c: int) -> bool {
    i64::MIN <= fahrenheit_of(c) <= i64::MAX
}

/// `n / d` rounded down, for a positive divisor.
fn floor_div(n: i128, d: i128) -> (r: i128)
    requires
        d > 0,
        n > i128::MIN,
    ensures
        r == n as int / d as int,
{
    if n >= 0 {
        let q: i128 = n / d;
        assert(q == n as int / d as int);
        q
    } else {
        let m: i128 = -n;
        let q: i128 = (m - 1) / d + 1;
        proof {
            let mi = m as int;
            let di = d as int;
            assert(-((mi - 1) / di + 1) == (-mi) / di) by (nonlinear_arith)
                requires
                    di > 0,
                    mi > 0,
            ;
        }
        -q
    }
}

/// Fahrenheit from Celsius, both in thousandths of a degree.
pub fn to_fahrenhiet(temperature: i64) -> (r: i64)
    requires
        fahrenheit_fits(temperature as int),
    ensures
        r == fahrenheit_of(temperature as int),
{
    let q: i128 = floor_div(9 * (temperature as i128), 5);
    (32000 + q) as i64
}

/// Celsius from Fahrenheit, both in thousandths of a degree.
pub fn to_celcuis(temperature: i64) -> (r: i64)
    ensures
        r == celsius_of(temperature as int),
{
    let q: i128 = floor_div(((temperature as i128) - 32000) * 5, 9);
    assert(i64::MIN <= q <= i64::MAX) by (nonlinear_arith)
        requires
            q == (((temperature as int) - 32000) * 5) / 9,
            i64::MIN <= temperature <= i64::MAX,
    ;
    q as i64
}

/// Converting Celsius to Fahrenheit and back loses at most one thousandth of
/// a degree, and never rounds up.
pub proof fn lemma_unit_round_trip(c: int)
    ensures
        c - 1 <= celsius_of(fahrenheit_of(c)) <= c,
{
    let a = (9 * c) / 5;
    assert(9 * c - 4 <= 5 * a <= 9 * c) by (nonlinear_arith)
        requires
            a == (9 * c) / 5,
    ;
    assert(fahrenheit_of(c) - 32000 == a);
    let b = (a * 5) / 9;
    assert(c - 1 <= b <= c) by (nonlinear_arith)
        requires
            b == (a * 5) / 9,
            9 * c - 4 <= 5 * a <= 9 * c,
    ;
}

/// The unit glyph written after a temperature.
pub open spec fn unit_glyph(unit: TemperatureUnits) -> Seq<char> {
    match unit {
        TemperatureUnits::Celsuis => seq!['\u{b0}', 'C'],
        TemperatureUnits::Fahrenheit => seq!['\u{b0}', 'F'],
    }
}

/// A temperature: a magnitude in thousandths of a degree and the unit it is in.
/// The two fields change together, only through the conversion methods.
#[derive(Clone, Copy, Debug)]
pub struct Temperature {
    value: i64,
    unit: TemperatureUnits,
}

impl Temperature {
    /// The magnitude, in thousandths of a degree of `unit()`.
    pub closed spec fn milli(&self) -> int {
        self.value as int
    }

    /// The unit the magnitude is in.
    pub closed spec fn unit(&self) -> TemperatureUnits {
        self.unit
    }

    pub fn new(value: i64, unit: TemperatureUnits) -> (r: Temperature)
        ensures
            r.milli() == value as int,
            r.unit() == unit,
    {
        Temperature { value, unit }
    }

    pub fn get_temperature(&self) -> (r: (i64, TemperatureUnits))
        ensures
            r.0 as int == self.milli(),
            r.1 == self.unit(),
    {
        (self.value, self.unit)
    }

    /// Two decimal places and the unit glyph, as in `24.69` followed by
    /// the degree sign and `C`.
    pub fn to_text(&self) -> (r: String)
        ensures
            r@ == fixed2_text(self.milli()) + unit_glyph(self.unit()),
    {
        let mut s = String::new();
        append_fixed2(&mut s, self.value);
        match self.unit {
            TemperatureUnits::Celsuis => {
                s.append("\u{b0}C");
                proof {
                    reveal_strlit("\u{b0}C");
                }
            },
            TemperatureUnits::Fahrenheit => {
                s.append("\u{b0}F");
                proof {
                    reveal_strlit("\u{b0}F");
                }
            },
        }
        proof {
            assert(s@ =~= fixed2_text(self.milli()) + unit_glyph(self.unit()));
        }
        s
    }

    /// Expresses the temperature in Celsius; a no-op when it already is.
    pub fn convert_to_celcuis(&mut self)
        ensures
            final(self).unit() == TemperatureUnits::Celsuis,
            final(self).milli() == (if old(self).unit() == TemperatureUnits::Fahrenheit {
                celsius_of(old(self).milli())
            } else {
                old(self).milli()
            }),
    {
        match self.unit {
            TemperatureUnits::Fahrenheit => {
                self.value = to_celcuis(self.value);
                self.unit = TemperatureUnits::Celsuis;
            },
            _ => {},
        }
    }

    /// Expresses the temperature in Fahrenheit; a no-op when it already is.
    pub fn convert_to_fahrenhiet(&mut self)
        requires
            old(self).unit() == TemperatureUnits::Celsuis ==> fahrenheit_fits(old(self).milli()),
        ensures
            final(self).unit() == TemperatureUnits::Fahrenheit,
            final(self).milli() == (if old(self).unit() == TemperatureUnits::Celsuis {
                fahrenheit_of(old(self).milli())
            } else {
                old(self).milli()
            }),
    {
        match self.unit {
            TemperatureUnits::Celsuis => {
                self.value = to_fahrenhiet(self.value);
                self.unit = TemperatureUnits::Fahrenheit;
            },
            _ => {},
        }
    }
}

/// Relative humidity in thousandths of a percent. Values outside 0..100% are
/// kept as they are.
#[derive(Clone, Copy, Debug, PartialEq, Eq, Structural)]
pub enum Humidity {
    Relative(i64),
}

/// The humidity in thousandths of a percent.
pub open spec fn humidity_milli(h: Humidity) -> int {
    match h {
        Humidity::Relative(v) => v as int,
    }
}

impl Humidity {
    /// Two decimal places and a percent sign, as in `32.34%`.
    pub fn to_text(&self) -> (r: String)
        ensures
            r@ == fixed2_text(humidity_milli(*self)) + seq!['%'],
    {
        let mut s = String::new();
        match self {
            Humidity::Relative(h) => append_fixed2(&mut s, *h),
        }
        s.append("%");
        proof {
            reveal_strlit("%");
            assert(s@ =~= fixed2_text(humidity_milli(*self)) + seq!['%']);
        }
        s
    }
}

} // verus!
