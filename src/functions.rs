//! Plottable function variants and the sampler that turns a variant and the
//! global parameters into a series of points.
//!
//! Amplitude and frequency are held in tenths (`10` is `1.0`); coordinates
//! are fixed-point micro-units (see `fixed`). A reciprocal variant whose
//! denominator is exactly zero yields a sample without a y-value: that point
//! is non-finite and is left out when the series is projected.
use vstd::prelude::*;
use vstd::arithmetic::div_mod::lemma_div_multiples_vanish;
use crate::fixed::{cosine, cosine_of, quot, sine, sine_of, TWO_PI_MICRO};

verus! {

/// Smallest amplitude or frequency, in tenths.
pub const PARAM_FLOOR: u64 = 1;

/// Largest amplitude or frequency, in tenths.
pub const PARAM_CEILING: u64 = 1_000_000;

/// The amplitude and frequency a fresh function is sampled with, in tenths.
pub const PARAM_UNIT: u64 = 10;

/// Number of points in each sampled series.
pub const SAMPLE_COUNT: usize = 101;

/// Grid index whose x-value is zero.
pub const GRID_CENTRE: i64 = 50;

/// Distance between neighbouring x-values of the grid (0.2), in micro-units.
pub const GRID_STEP: i64 = 200_000;

/// Micro-units per tenth.
pub const TENTH: i64 = 100_000;

/// `MICRO * TENTH`: the numerator of a reciprocal wave with amplitude one tenth.
pub const RECIPROCAL_SCALE: i64 = 100_000_000_000;

/// Bound on the magnitude of a value that an amplitude multiplies.
pub const FACTOR_LIMIT: i64 = 1_000_000_000_000;

/// A comparison against a fixed threshold.
#[derive(PartialEq, Eq, Structural, Clone, Copy, Debug)]
pub enum Comparison {
    Greater,
    GreaterOrEqual,
    Less,
    LessOrEqual,
}

/// Whether `x op threshold` holds.
pub open spec fn compares(op: Comparison, x: int, threshold: int) -> bool {
    match op {
        Comparison::Greater => x > threshold,
        Comparison::GreaterOrEqual => x >= threshold,
        Comparison::Less => x < threshold,
        Comparison::LessOrEqual => x <= threshold,
    }
}

impl Comparison {
    /// Whether `x` stands in this relation to `threshold`.
    pub fn holds(&self, x: i64, threshold: i64) -> (r: bool)
        ensures
            r == compares(*self, x as int, threshold as int),
    {
        match self {
            Comparison::Greater => x > threshold,
            Comparison::GreaterOrEqual => x >= threshold,
            Comparison::Less => x < threshold,
            Comparison::LessOrEqual => x <= threshold,
        }
    }
}

/// The closed set of plottable function kinds.
#[derive(PartialEq, Eq, Structural, Clone, Copy, Debug)]
pub enum FunctionType {
    Sine,
    Cosine,
    Tangent,
    Secant,
    Cosecant,
    Cotangent,
    Parametric,
    /// The region where `x op threshold` holds; `threshold` is in micro-units.
    Inequality { op: Comparison, threshold: i64 },
}

/// One sampled point; `y` is `None` where the value is non-finite.
#[derive(PartialEq, Eq, Structural, Clone, Copy, Debug)]
pub struct Sample {
    pub x: i64,
    pub y: Option<i64>,
}

/// One entry of the catalogue: a named variant and its current samples.
pub struct Function {
    pub name: String,
    pub func_type: FunctionType,
    pub data: Vec<Sample>,
}

/// The x-value of grid index `k`: `(k - 50) / 5`.
pub open spec fn grid_x(k: int) -> int {
    (k - GRID_CENTRE) * GRID_STEP
}

/// The argument `frequency * x` at grid index `k`, in micro-radians.
pub open spec fn wave_angle(f: int, k: int) -> int {
    f * grid_x(k) / 10
}

/// The parameter `t` of the `k`-th parametric point: `k / 101` of a full turn.
pub open spec fn turn_angle(k: int) -> int {
    TWO_PI_MICRO * k / SAMPLE_COUNT as int
}

/// A sample whose y-value is `n / d`, non-finite where `d` is zero.
pub open spec fn ratio_sample(x: int, n: int, d: int) -> Sample {
    Sample { x: x as i64, y: if d == 0 { None } else { Some(quot(n, d) as i64) } }
}

/// The `k`-th sample of `ft` at amplitude `a` and frequency `f` (tenths).
pub open spec fn sample_at(ft: FunctionType, a: int, f: int, k: int) -> Sample {
    let x = grid_x(k);
    let w = wave_angle(f, k);
    let t = turn_angle(k);
    match ft {
        FunctionType::Sine => Sample { x: x as i64, y: Some(quot(a * sine_of(w), 10) as i64) },
        FunctionType::Cosine => Sample { x: x as i64, y: Some(quot(a * cosine_of(w), 10) as i64) },
        FunctionType::Tangent => ratio_sample(x, a * (sine_of(w) * TENTH), cosine_of(w)),
        FunctionType::Secant => ratio_sample(x, a * RECIPROCAL_SCALE, cosine_of(w)),
        FunctionType::Cosecant => ratio_sample(x, a * RECIPROCAL_SCALE, sine_of(w)),
        FunctionType::Cotangent => ratio_sample(x, a * (cosine_of(w) * TENTH), sine_of(w)),
        FunctionType::Parametric => Sample {
            x: quot(a * cosine_of(t), 10) as i64,
            y: Some(quot(a * sine_of(t), 10) as i64),
        },
        FunctionType::Inequality { .. } => Sample { x: x as i64, y: None },
    }
}

/// The series a variant yields: 101 grid points, none for an inequality.
pub open spec fn samples_of(ft: FunctionType, a: int, f: int) -> Seq<Sample> {
    match ft {
        FunctionType::Inequality { .. } => Seq::empty(),
        _ => Seq::new(SAMPLE_COUNT as nat, |k: int| sample_at(ft, a, f, k)),
    }
}

/// Amplitude and frequency that the sampler accepts.
pub open spec fn params_in_range(a: int, f: int) -> bool {
    0 <= a <= PARAM_CEILING && 0 <= f <= PARAM_CEILING
}

/// `n / d` rounded toward zero.
fn div_toward_zero(n: i64, d: i64) -> (q: i64)
    requires
        d != 0,
        -FACTOR_LIMIT * 1_000_000 <= n <= FACTOR_LIMIT * 1_000_000,
        -FACTOR_LIMIT <= d <= FACTOR_LIMIT,
    ensures
        q == quot(n as int, d as int),
        -FACTOR_LIMIT * 1_000_000 <= q <= FACTOR_LIMIT * 1_000_000,
{
    let na: i64 = if n >= 0 { n } else { -n };
    let da: i64 = if d >= 0 { d } else { -d };
    let q = na / da;
    assert(q <= na) by (nonlinear_arith)
        requires q == na / da, na >= 0, da >= 1;
    if (n >= 0) == (d > 0) { q } else { -q }
}

/// `a * v` for an amplitude `a` in tenths.
fn amplify(a: u64, v: i64) -> (r: i64)
    requires
        a <= PARAM_CEILING,
        -FACTOR_LIMIT <= v <= FACTOR_LIMIT,
    ensures
        r == a * v,
        -FACTOR_LIMIT * 1_000_000 <= r <= FACTOR_LIMIT * 1_000_000,
{
    assert(-FACTOR_LIMIT * 1_000_000 <= a * v <= FACTOR_LIMIT * 1_000_000) by (nonlinear_arith)
        requires 0 <= a <= 1_000_000, -FACTOR_LIMIT <= v <= FACTOR_LIMIT;
    (a as i64) * v
}

/// The sample of `ft` at grid index `k`.
fn sample_point(ft: &FunctionType, a: u64, f: u64, k: i64) -> (s: Sample)
    requires
        params_in_range(a as int, f as int),
        0 <= k < SAMPLE_COUNT,
    ensures
        s == sample_at(*ft, a as int, f as int, k as int),
{
    let x = (k - GRID_CENTRE) * GRID_STEP;
    assert(-50_000_000 <= f * (k - GRID_CENTRE) <= 50_000_000) by (nonlinear_arith)
        requires 0 <= f <= 1_000_000, 0 <= k < 101;
    let steps = f as i64 * (k - GRID_CENTRE);
    let w = steps * (GRID_STEP / 10);
    proof {
        assert(f * grid_x(k as int) == 10 * w) by (nonlinear_arith)
            requires steps == f * (k - GRID_CENTRE), w == steps * 20_000,
                grid_x(k as int) == (k - GRID_CENTRE) * 200_000;
        lemma_div_multiples_vanish(w as int, 10);
    }
    match ft {
        FunctionType::Sine => {
            let s = sine(w);
            Sample { x, y: Some(div_toward_zero(amplify(a, s), 10)) }
        },
        FunctionType::Cosine => {
            let c = cosine(w);
            Sample { x, y: Some(div_toward_zero(amplify(a, c), 10)) }
        },
        FunctionType::Tangent => {
            let s = sine(w);
            let c = cosine(w);
            let n = amplify(a, s * TENTH);
            Sample { x, y: if c == 0 { None } else { Some(div_toward_zero(n, c)) } }
        },
        FunctionType::Secant => {
            let c = cosine(w);
            let n = amplify(a, RECIPROCAL_SCALE);
            Sample { x, y: if c == 0 { None } else { Some(div_toward_zero(n, c)) } }
        },
        FunctionType::Cosecant => {
            let s = sine(w);
            let n = amplify(a, RECIPROCAL_SCALE);
            Sample { x, y: if s == 0 { None } else { Some(div_toward_zero(n, s)) } }
        },
        FunctionType::Cotangent => {
            let s = sine(w);
            let c = cosine(w);
            let n = amplify(a, c * TENTH);
            Sample { x, y: if s == 0 { None } else { Some(div_toward_zero(n, s)) } }
        },
        FunctionType::Parametric => {
            let t = TWO_PI_MICRO * k / (SAMPLE_COUNT as i64);
            let c = cosine(t);
            let s = sine(t);
            Sample {
                x: div_toward_zero(amplify(a, c), 10),
                y: Some(div_toward_zero(amplify(a, s), 10)),
            }
        },
        FunctionType::Inequality { .. } => Sample { x, y: None },
    }
}

/// The full series of `ft`.
fn sample_series(ft: &FunctionType, a: u64, f: u64) -> (data: Vec<Sample>)
    requires
        params_in_range(a as int, f as int),
    ensures
        data@ == samples_of(*ft, a as int, f as int),
{
    let mut data: Vec<Sample> = Vec::new();
    if let FunctionType::Inequality { .. } = ft {
        return data;
    }
    let mut k: usize = 0;
    while k < SAMPLE_COUNT
        invariant
            params_in_range(a as int, f as int),
            k <= SAMPLE_COUNT,
            data@ == Seq::new(k as nat, |j: int| sample_at(*ft, a as int, f as int, j)),
        decreases SAMPLE_COUNT - k,
    {
        let s = sample_point(ft, a, f, k as i64);
        data.push(s);
        k = k + 1;
        assert(data@ =~= Seq::new(k as nat, |j: int| sample_at(*ft, a as int, f as int, j)));
    }
    assert(data@ =~= samples_of(*ft, a as int, f as int));
    data
}

impl Function {
    /// A new entry sampled at amplitude and frequency `1.0`.
    pub fn new(name: String, func_type: FunctionType) -> (r: Function)
        ensures
            r.name@ == name@,
            r.func_type == func_type,
            r.data@ == samples_of(func_type, PARAM_UNIT as int, PARAM_UNIT as int),
    {
        let data = Self::generate(&func_type, PARAM_UNIT, PARAM_UNIT);
        Function { name, func_type, data }
    }

    /// The series of `func_type` at the given amplitude and frequency (tenths).
    pub fn generate(func_type: &FunctionType, amplitude: u64, frequency: u64) -> (r: Vec<Sample>)
        requires
            params_in_range(amplitude as int, frequency as int),
        ensures
            r@ == samples_of(*func_type, amplitude as int, frequency as int),
    {
        match func_type {
            FunctionType::Sine => Self::generate_sine_wave(amplitude, frequency),
            FunctionType::Cosine => Self::generate_cosine_wave(amplitude, frequency),
            FunctionType::Tangent => Self::generate_tangent_wave(amplitude, frequency),
            FunctionType::Secant => Self::generate_secant_wave(amplitude, frequency),
            FunctionType::Cosecant => Self::generate_cosecant_wave(amplitude, frequency),
            FunctionType::Cotangent => Self::generate_cotangent_wave(amplitude, frequency),
            FunctionType::Parametric => {
                let r = Self::generate_parametric(amplitude);
                assert(samples_of(FunctionType::Parametric, amplitude as int, PARAM_UNIT as int)
                    =~= samples_of(FunctionType::Parametric, amplitude as int, frequency as int));
                r
            },
            FunctionType::Inequality { .. } => Vec::new(),
        }
    }

    /// `amplitude * sin(frequency * x)` over the grid.
    pub fn generate_sine_wave(amplitude: u64, frequency: u64) -> (r: Vec<Sample>)
        requires
            params_in_range(amplitude as int, frequency as int),
        ensures
            r@ == samples_of(FunctionType::Sine, amplitude as int, frequency as int),
    {
        sample_series(&FunctionType::Sine, amplitude, frequency)
    }

    /// `amplitude * cos(frequency * x)` over the grid.
    pub fn generate_cosine_wave(amplitude: u64, frequency: u64) -> (r: Vec<Sample>)
        requires
            params_in_range(amplitude as int, frequency as int),
        ensures
            r@ == samples_of(FunctionType::Cosine, amplitude as int, frequency as int),
    {
        sample_series(&FunctionType::Cosine, amplitude, frequency)
    }

    /// `amplitude * tan(frequency * x)` over the grid.
    pub fn generate_tangent_wave(amplitude: u64, frequency: u64) -> (r: Vec<Sample>)
        requires
            params_in_range(amplitude as int, frequency as int),
        ensures
            r@ == samples_of(FunctionType::Tangent, amplitude as int, frequency as int),
    {
        sample_series(&FunctionType::Tangent, amplitude, frequency)
    }

    /// `amplitude / cos(frequency * x)` over the grid.
    pub fn generate_secant_wave(amplitude: u64, frequency: u64) -> (r: Vec<Sample>)
        requires
            params_in_range(amplitude as int, frequency as int),
        ensures
            r@ == samples_of(FunctionType::Secant, amplitude as int, frequency as int),
    {
        sample_series(&FunctionType::Secant, amplitude, frequency)
    }

    /// `amplitude / sin(frequency * x)` over the grid.
    pub fn generate_cosecant_wave(amplitude: u64, frequency: u64) -> (r: Vec<Sample>)
        requires
            params_in_range(amplitude as int, frequency as int),
        ensures
            r@ == samples_of(FunctionType::Cosecant, amplitude as int, frequency as int),
    {
        sample_series(&FunctionType::Cosecant, amplitude, frequency)
    }

    /// `amplitude / tan(frequency * x)` over the grid.
    pub fn generate_cotangent_wave(amplitude: u64, frequency: u64) -> (r: Vec<Sample>)
        requires
            params_in_range(amplitude as int, frequency as int),
        ensures
            r@ == samples_of(FunctionType::Cotangent, amplitude as int, frequency as int),
    {
        sample_series(&FunctionType::Cotangent, amplitude, frequency)
    }

    /// The circle `(amplitude * cos t, amplitude * sin t)` over one turn.
    pub fn generate_parametric(amplitude: u64) -> (r: Vec<Sample>)
        requires
            amplitude <= PARAM_CEILING,
        ensures
            r@ == samples_of(FunctionType::Parametric, amplitude as int, PARAM_UNIT as int),
    {
        sample_series(&FunctionType::Parametric, amplitude, PARAM_UNIT)
    }

    /// Replaces the samples with those at the given amplitude and frequency.
    pub fn update_data(&mut self, amplitude: u64, frequency: u64)
        requires
            params_in_range(amplitude as int, frequency as int),
        ensures
            final(self).name == old(self).name,
            final(self).func_type == old(self).func_type,
            final(self).data@ == samples_of(old(self).func_type, amplitude as int, frequency as int),
    {
        self.data = Self::generate(&self.func_type, amplitude, frequency);
    }
}

} // verus!
