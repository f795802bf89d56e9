#![allow(dead_code)]

use std::f64::consts::PI;
use twophase::error::SolveError;
use twophase::friction;
use twophase::kernels::{NewtonTrial, Trial};
use twophase::models::{holdup_factor, similarity_analysis};
use twophase::regime::{Model, Regime};
use twophase::scalar::Scalar;
use twophase::twoline::{Inputs, Outputs, Status, TwoPhaseLine};
use twophase::vertical_up::{
    bubble_model, classify, curve_a_guard, slug_model, VerticalUp, VerticalUpRatios,
};

/// The library's view of a double.
pub fn scalar(x: f64) -> Scalar {
    Scalar::from_bits(x.to_bits())
}

/// The double behind the library's view.
pub fn double(s: Scalar) -> f64 {
    f64::from_bits(s.to_bits())
}

/// The process data of a segment as doubles.
#[derive(Clone, Copy, Debug)]
pub struct Process {
    pub wl: f64,
    pub wg: f64,
    pub lol: f64,
    pub log: f64,
    pub mul: f64,
    pub mug: f64,
    pub st: f64,
    pub rough: f64,
    pub sf: f64,
    pub id: f64,
    pub degree: f64,
}

impl From<Inputs> for Process {
    fn from(i: Inputs) -> Self {
        Process {
            wl: double(i.liquid_flow),
            wg: double(i.vapor_flow),
            lol: double(i.liquid_density),
            log: double(i.vapor_density),
            mul: double(i.liquid_viscosity),
            mug: double(i.vapor_viscosity),
            st: double(i.surface_tension),
            rough: double(i.roughness),
            sf: double(i.safety_factor),
            id: double(i.diameter),
            degree: double(i.inclination),
        }
    }
}

impl From<Process> for Inputs {
    fn from(p: Process) -> Self {
        Inputs {
            liquid_flow: scalar(p.wl),
            vapor_flow: scalar(p.wg),
            liquid_density: scalar(p.lol),
            vapor_density: scalar(p.log),
            liquid_viscosity: scalar(p.mul),
            vapor_viscosity: scalar(p.mug),
            surface_tension: scalar(p.st),
            roughness: scalar(p.rough),
            safety_factor: scalar(p.sf),
            diameter: scalar(p.id),
            inclination: scalar(p.degree),
        }
    }
}

/// Brings engineering units to SI: cP to kg/m-s, inch to m, dyne/cm to
/// kgf/s2, degree to radian, mm to m.
pub fn rescale(inputs: Inputs) -> Inputs {
    let p = Process::from(inputs);
    Inputs::from(Process {
        mul: p.mul * 0.001,
        mug: p.mug * 0.001,
        id: p.id * 2.54 / 100.0,
        st: p.st * 1.019716213E-4,
        degree: p.degree * (std::f32::consts::PI as f64) / 180.0,
        rough: p.rough / 1000.0,
        ..p
    })
}

/// The results of a model as doubles; what a model does not define is zero.
#[derive(Clone, Copy, Debug, Default)]
pub struct Results {
    pub holdup: f64,
    pub liquid_fraction: f64,
    pub two_phase_density: f64,
    pub no_slip_density: f64,
    pub slug_density: f64,
    pub slug_unit_density: f64,
    pub two_phase_velocity: f64,
    pub liquid_velocity: f64,
    pub vapor_velocity: f64,
    pub slug_velocity: f64,
    pub friction_loss: f64,
    pub elevation_loss: f64,
    pub acceleration_loss: f64,
    pub velocity_head: f64,
    pub erosion_factor: f64,
    pub slug_length: f64,
    pub slug_unit_length: f64,
    pub entrance_length: f64,
    pub liquid_depth: f64,
}

impl From<Results> for Outputs {
    fn from(r: Results) -> Self {
        Outputs {
            holdup: scalar(r.holdup),
            liquid_fraction: scalar(r.liquid_fraction),
            two_phase_density: scalar(r.two_phase_density),
            no_slip_density: scalar(r.no_slip_density),
            slug_density: scalar(r.slug_density),
            slug_unit_density: scalar(r.slug_unit_density),
            two_phase_velocity: scalar(r.two_phase_velocity),
            liquid_velocity: scalar(r.liquid_velocity),
            vapor_velocity: scalar(r.vapor_velocity),
            slug_velocity: scalar(r.slug_velocity),
            friction_loss: scalar(r.friction_loss),
            elevation_loss: scalar(r.elevation_loss),
            acceleration_loss: scalar(r.acceleration_loss),
            velocity_head: scalar(r.velocity_head),
            erosion_factor: scalar(r.erosion_factor),
            slug_length: scalar(r.slug_length),
            slug_unit_length: scalar(r.slug_unit_length),
            entrance_length: scalar(r.entrance_length),
            liquid_depth: scalar(r.liquid_depth),
        }
    }
}

impl From<Outputs> for Results {
    fn from(o: Outputs) -> Self {
        Results {
            holdup: double(o.holdup),
            liquid_fraction: double(o.liquid_fraction),
            two_phase_density: double(o.two_phase_density),
            no_slip_density: double(o.no_slip_density),
            slug_density: double(o.slug_density),
            slug_unit_density: double(o.slug_unit_density),
            two_phase_velocity: double(o.two_phase_velocity),
            liquid_velocity: double(o.liquid_velocity),
            vapor_velocity: double(o.vapor_velocity),
            slug_velocity: double(o.slug_velocity),
            friction_loss: double(o.friction_loss),
            elevation_loss: double(o.elevation_loss),
            acceleration_loss: double(o.acceleration_loss),
            velocity_head: double(o.velocity_head),
            erosion_factor: double(o.erosion_factor),
            slug_length: double(o.slug_length),
            slug_unit_length: double(o.slug_unit_length),
            entrance_length: double(o.entrance_length),
            liquid_depth: double(o.liquid_depth),
        }
    }
}

/// Gravity acceleration, m/s2.
pub const G: f64 = 9.81;
/// Gravity constant, kg-m/kgf-s2.
pub const GC: f64 = 9.8;

/// The explicit turbulent friction factor of Chen.
fn chen(re: f64, rough: f64, id: f64) -> f64 {
    let a = (rough / id).powf(1.1098) / 2.8257 + (7.149 / re).powf(0.8961);
    let b = -4.0 * ((rough / id / 3.7065) - (5.0452 / re) * (a.log10())).log10();
    1.0 / b.powf(2.0)
}

/// The Fanning friction factor; the library picks the branch.
pub fn fanning(p: &Process, re: f64) -> Result<f64, SolveError> {
    let f = friction::fanning(
        scalar(re),
        scalar(p.rough),
        scalar(p.id),
        |re| scalar(16.0 / double(re)),
        |re, rough, id| scalar(chen(double(re), double(rough), double(id))),
    )?;
    Ok(double(f))
}

/// The two-phase correction of the friction factor, from the negative
/// logarithm of the liquid fraction.
pub fn two_phase_correction(ln_lambda: f64) -> f64 {
    1.0 + ln_lambda
        / (1.281 - 0.478 * ln_lambda + 0.444 * ln_lambda.powf(2.0)
            - 0.094 * ln_lambda.powf(3.0)
            + 0.00843 * ln_lambda.powf(4.0))
}

/// Pipe cross section, m2.
pub fn area(p: &Process) -> f64 {
    std::f64::consts::PI * p.id * p.id / 4.0
}

/// Superficial vapor velocity, m/s.
pub fn vapor_velocity(p: &Process) -> f64 {
    p.wg / p.log / area(p) / 3600.0
}

/// Superficial liquid velocity, m/s.
pub fn liquid_velocity(p: &Process) -> f64 {
    p.wl / p.lol / area(p) / 3600.0
}

/// No-slip mixture density, kg/m3.
pub fn no_slip_density(p: &Process) -> f64 {
    (p.wl + p.wg) / (p.wl / p.lol + p.wg / p.log)
}

/// One velocity head and the erosion factor of a mixture of the given
/// density at the given velocity.
pub fn head_and_erosion(density: f64, velocity: f64) -> (f64, f64) {
    let head = density * velocity.powf(2.0) / (2.0 * G) / 10000.0;
    let erosion = (density * 0.062428) * (velocity * 3.28084).powf(2.0) / 10000.0;
    (head, erosion)
}

/// One trial of a fixed-point iteration at `x` whose correlation gave
/// `calculated`, damped by half.
pub fn damped(x: f64, calculated: f64) -> Trial {
    Trial { gap: scalar((calculated - x).abs()), next: scalar((calculated + x) / 2.0) }
}

/// One trial of a Newton-Raphson iteration at `x` with function value `fx`
/// and slope `slope`, damped by half.
pub fn damped_newton(x: f64, fx: f64, slope: f64) -> NewtonTrial {
    let calculated = x - fx / slope;
    NewtonTrial {
        slope: scalar(slope),
        gap: scalar((calculated - x).abs()),
        next: scalar((x + calculated) / 2.0),
    }
}

/// The gas-holdup correlation of the similarity analysis at `rg`.
pub fn similarity_holdup(p: &Process, rg: f64) -> f64 {
    let gt = (p.wl + p.wg) / area(p) / 3600.0;
    let ugs = vapor_velocity(p);
    let uls = liquid_velocity(p);
    let utp = ugs + uls;
    let lamda = uls / (uls + ugs);
    let re = p.id * gt / (rg * p.mug + (1.0 - rg) * p.mul);
    let fr = utp * utp / (G * p.id);
    let z = re.powf(0.167) * fr.powf(0.125) / lamda.powf(0.25);
    let k = double(holdup_factor(
        scalar(z),
        |z| {
            let z = double(z);
            scalar(-0.16367 + 0.31037 * z - 0.03525 * z * z + 0.001366 * z * z * z)
        },
        |z| {
            let z = double(z);
            scalar(0.75545 + 0.003585 * z - 0.1436e-4 * z * z)
        },
    ));
    let x = p.wg / (p.wg + p.wl);
    k / ((1.0 / x - 1.0) * (p.log / p.lol) + 1.0)
}

/// The outputs of the similarity analysis for the converged gas holdup.
pub fn similarity_results(p: &Process, rg: f64) -> Result<Results, SolveError> {
    let ugs = vapor_velocity(p);
    let uls = liquid_velocity(p);
    let utp = ugs + uls;
    let lamda = uls / (uls + ugs);
    let lo_tp = p.lol * lamda.powf(2.0) / (1.0 - rg) + p.log * (1.0 - lamda).powf(2.0) / rg;
    let mu_tp = p.mul * lamda + p.mug * (1.0 - lamda);
    let re_tp = p.id * (uls + ugs) * lo_tp / mu_tp;
    let f0 = fanning(p, re_tp)? * 4.0;
    let f_tp = two_phase_correction(-1.0 * lamda.ln()) * f0;
    let lo_ns = no_slip_density(p);
    let (head, erosion) = head_and_erosion(lo_ns, utp);
    Ok(Results {
        holdup: 1.0 - rg,
        friction_loss: f_tp * lo_tp * (uls + ugs).powf(2.0) / (2.0 * G * p.id) / 10000.0
            * 100.0
            * p.sf,
        elevation_loss: (p.lol * (1.0 - rg) + p.log * rg) / 10000.0 * 100.0,
        two_phase_density: p.lol * (1.0 - rg) + p.log * rg,
        two_phase_velocity: utp,
        velocity_head: head,
        erosion_factor: erosion,
        ..Results::default()
    })
}

/// Runs the similarity analysis.
pub fn run_similarity(p: Process) -> Result<Outputs, SolveError> {
    similarity_analysis(
        move |rg| damped(double(rg), similarity_holdup(&p, double(rg))),
        move |rg| similarity_results(&p, double(rg)).map(Outputs::from),
    )
}

/// The gas velocity on the churn-to-annular curve, which does not depend on
/// the liquid rate.
fn curve_e(p: &Process) -> f64 {
    let term_e = ((p.lol - p.log) * G * p.st).powf(0.25);
    3.1 * term_e / p.log.sqrt()
}

/// The liquid velocity on the curve to finely dispersed bubbles at gas
/// velocity `x`.
fn curve_b(p: &Process, x: f64) -> f64 {
    let term_b = 4.0
        * ((G * (p.lol - p.log) / p.lol).powf(0.446) * p.id.powf(0.429)
            * (p.st / p.lol).powf(0.089)
            / (p.mul / p.lol).powf(0.072));
    term_b - x
}

/// The gas velocity on the bubble-to-slug curve at liquid velocity `y`.
fn curve_a(p: &Process, y: f64) -> f64 {
    let term_a = G * (p.lol - p.log) * p.st / p.lol.powf(2.0);
    (y + 0.9938 * term_a.powf(0.25)) / 3.0
}

/// The boundary ratios of normalized inputs.
pub fn measure(inputs: Inputs) -> Result<VerticalUpRatios, SolveError> {
    let p = Process::from(inputs);
    let alfa = 0.25;
    let ugs = vapor_velocity(&p) * alfa;
    let uls = liquid_velocity(&p) * (1.0 - alfa);
    Ok(VerticalUpRatios {
        a: curve_a_guard(scalar(curve_a(&p, uls))).map(|v| scalar(ugs / double(v))),
        b: scalar(uls / curve_b(&p, ugs)),
        c: scalar(ugs / (13.0 / 12.0 * uls)),
        e: scalar(ugs / curve_e(&p)),
    })
}

/// The rise velocity of a bubble due to buoyancy at gas void fraction `alfa`.
fn buoyant_rise(p: &Process, alfa: f64) -> f64 {
    1.53 * ((p.st * G * (p.lol - p.log)) / (p.lol * p.lol)).powf(0.25) * (1.0f64 - alfa).sqrt()
}

/// What the slug-and-churn model knows before it iterates.
#[derive(Clone, Copy)]
struct Slug {
    ugs: f64,
    uls: f64,
    utp: f64,
    un: f64,
    ulls: f64,
    ugls: f64,
    landa: f64,
}

const ALFA_LS: f64 = 0.25;

fn slug(p: &Process) -> Slug {
    let ugs = vapor_velocity(p);
    let uls = liquid_velocity(p);
    let utp = ugs + uls;
    let un = 0.35 * (G * p.id).sqrt() + 1.29 * utp;
    let term = buoyant_rise(p, ALFA_LS);
    let ulls = utp - term * ALFA_LS;
    let ugls = utp + term * (1.0 - ALFA_LS);
    Slug { ugs, uls, utp, un, ulls, ugls, landa: ulls * (1.0 - ALFA_LS) / utp }
}

/// The Taylor-bubble balance and its slope at void fraction `alfa_tb`.
fn taylor(p: &Process, s: &Slug, alfa_tb: f64) -> (f64, f64) {
    let term = s.un * (alfa_tb - ALFA_LS) - s.ulls * (1.0 - ALFA_LS);
    let term1 = 9.916 * (G * p.id * (1.0 - alfa_tb.sqrt())).sqrt() * (1.0 - alfa_tb);
    let alf2 = s.un
        + 9.916 * (G * p.id * (1.0 - alfa_tb.sqrt())).sqrt() * (1.0 + 5.0 * alfa_tb.sqrt())
            / (4.0 * alfa_tb.sqrt());
    (term - term1, alf2)
}

fn slug_results(p: &Process, s: &Slug, accepted: f64) -> Result<Results, SolveError> {
    let (alf1, alf2) = taylor(p, s, accepted);
    let alfa_tb = (accepted + (accepted - alf1 / alf2)) / 2.0;
    let ultb = 9.916 * (G * p.id * (1.0 - alfa_tb.sqrt())).sqrt();
    let beta = (s.ugs - ALFA_LS * s.ugls) / s.un / (alfa_tb - ALFA_LS);
    let alfa_su = beta * alfa_tb + (1.0 - beta) * ALFA_LS;
    let lls = 20.0 * p.id;
    let lu = lls / (1.0 - beta);
    let lo_ls =
        p.log * (1.0 - s.landa).powf(2.0) / ALFA_LS + p.lol * s.landa.powf(2.0) / (1.0 - ALFA_LS);
    let lo_ns = no_slip_density(p);
    let (head, erosion) = head_and_erosion(lo_ns, s.utp);
    let mu_tp = p.mul * s.landa + p.mug * (1.0 - s.landa);
    let re_tp = lo_ls * s.utp * p.id / mu_tp;
    let f0 = fanning(p, re_tp)? * 4.0;
    let f_tp = f0 * two_phase_correction(-1.0 * s.landa.ln());
    let friction = f_tp * lo_ls * s.ulls.powf(2.0) / (2.0 * G * p.id) * (lls / lu) / 10000.0
        * 100.0
        * p.sf;
    let acceleration =
        p.lol * ultb / G * (1.0 - alfa_tb) * (s.ulls + ultb) * (1.0 / lu) / 10000.0 * 100.0;
    Ok(Results {
        slug_velocity: s.ulls,
        slug_length: lls,
        slug_unit_length: lu,
        slug_density: lo_ls,
        slug_unit_density: p.log * (1.0 - alfa_su) + p.lol * alfa_su,
        entrance_length: p.id * 35.5 * (8.0 / 7.0 * s.utp / (G * p.id).sqrt() + 0.25) * 1.2,
        velocity_head: head,
        acceleration_loss: acceleration,
        friction_loss: friction + acceleration,
        elevation_loss: (p.lol * (1.0 - alfa_su) + p.log * alfa_su) / 10000.0 * 100.0,
        erosion_factor: erosion,
        holdup: 1.0 - alfa_su,
        liquid_fraction: s.landa,
        ..Results::default()
    })
}

/// Runs the slug-and-churn model.
pub fn run_slug(p: Process) -> Result<Outputs, SolveError> {
    let s = slug(&p);
    slug_model(
        move |x| {
            let (fx, slope) = taylor(&p, &s, double(x));
            damped_newton(double(x), fx, slope)
        },
        move |x| slug_results(&p, &s, double(x)).map(Outputs::from),
    )
}

/// The void-fraction correlation of bubble flow at `alfa`.
fn bubble_void(p: &Process, alfa: f64) -> f64 {
    vapor_velocity(p) / (liquid_velocity(p) / (1.0 - alfa) + buoyant_rise(p, alfa))
}

fn bubble_results(p: &Process, accepted: f64) -> Result<Results, SolveError> {
    let alfa = (accepted + bubble_void(p, accepted)) / 2.0;
    let ugs = vapor_velocity(p);
    let uls = liquid_velocity(p);
    let landa = uls / (uls + ugs);
    let lo_tp = p.log * (1.0 - landa).powf(2.0) / alfa + p.lol * landa.powf(2.0) / (1.0 - alfa);
    let mu_tp = p.mul * landa + p.mug * (1.0 - landa);
    let re_tp = p.id * (uls + ugs) * lo_tp / mu_tp;
    let f0 = fanning(p, re_tp)? * 4.0;
    let f_tp = f0 * two_phase_correction(-1.0 * landa.ln());
    let utp = uls + ugs;
    let lo_ns = p.lol * landa + p.log * (1.0 - landa);
    let (head, erosion) = head_and_erosion(lo_ns, utp);
    Ok(Results {
        friction_loss: f_tp * lo_tp * (uls + ugs).powf(2.0) / (2.0 * G * p.id) / 10000.0
            * 100.0
            * p.sf,
        elevation_loss: (p.lol * (1.0 - alfa) + p.log * alfa) / 10000.0 * 100.0,
        two_phase_velocity: utp,
        two_phase_density: lo_tp,
        no_slip_density: lo_ns,
        liquid_fraction: landa,
        holdup: 1.0 - alfa,
        velocity_head: head,
        erosion_factor: erosion,
        ..Results::default()
    })
}

/// Runs the bubble model.
pub fn run_bubble(p: Process) -> Result<Outputs, SolveError> {
    bubble_model(
        move |x| damped(double(x), bubble_void(&p, double(x))),
        move |x| bubble_results(&p, double(x)).map(Outputs::from),
    )
}

/// Evaluates the model that the library selected.
pub fn run(inputs: Inputs, model: Model) -> Result<Outputs, SolveError> {
    let p = Process::from(inputs);
    match model {
        Model::SimilarityAnalysis => run_similarity(p),
        Model::SlugAndChurn => run_slug(p),
        Model::Bubble => run_bubble(p),
        _ => Err(SolveError::NoMatchingModel),
    }
}


fn close(actual: f64, expected: f64) -> bool {
    (actual - expected).abs() <= 1e-9 * expected.abs().max(1e-300)
}

fn line(v: [f64; 11]) -> VerticalUp {
    match VerticalUp::new(
        scalar(v[0]), scalar(v[1]), scalar(v[2]), scalar(v[3]), scalar(v[4]), scalar(v[5]),
        scalar(v[6]), scalar(v[7]), scalar(v[8]), scalar(v[9]), scalar(v[10]),
    ) {
        Ok(line) => line,
        Err(e) => panic!("rejected: {}", e.message()),
    }
}

const ANNULAR: [f64; 11] =
    [72036.365, 78722.747, 379.63758, 75.286778, 0.054, 0.011, 40.0, 0.04572, 1.0, 12.0, 0.0];
const BUBBLE: [f64; 11] = [100000.0, 50.0, 500.0, 2.0, 1.0, 0.01, 30.0, 0.046, 1.0, 6.065, 0.0];
const SLUG: [f64; 11] =
    [90718.0, 1814.36, 640.73852, 8.00923, 0.3, 0.01, 20.0, 0.04572, 1.0, 6.065, 0.0];

fn ratios(a: Option<f64>, b: f64, c: f64, e: f64) -> VerticalUpRatios {
    VerticalUpRatios { a: a.map(scalar), b: scalar(b), c: scalar(c), e: scalar(e) }
}

#[test]
fn vertical_up_tree_reaches_every_regime() {
    assert_eq!(classify(ratios(Some(0.5), 0.5, 0.5, 2.0)), Regime::VerticalUpAnnularFlow);
    assert_eq!(classify(ratios(Some(0.5), 0.5, 2.0, 0.5)), Regime::VerticalUpBubbleFlow);
    assert_eq!(classify(ratios(Some(2.0), 0.5, 0.5, 0.5)), Regime::VerticalUpSlugAndChurnFlow);
    assert_eq!(classify(ratios(Some(2.0), 2.0, 2.0, 0.5)), Regime::VerticalUpSlugAndChurnFlow);
    assert_eq!(
        classify(ratios(Some(2.0), 2.0, 0.5, 0.5)),
        Regime::VerticalUpFinelyDispersedBubbleFlow
    );
    assert_eq!(
        classify(ratios(Some(0.5), 2.0, 2.0, 0.5)),
        Regime::VerticalUpFinelyDispersedBubbleFlow
    );
}

#[test]
fn vertical_up_ties_take_the_stable_branch() {
    assert_eq!(classify(ratios(Some(1.0), 1.0, 2.0, 1.0)), Regime::VerticalUpBubbleFlow);
    assert_eq!(
        classify(ratios(Some(2.0), 2.0, 1.0, 1.0)),
        Regime::VerticalUpFinelyDispersedBubbleFlow
    );
    assert_eq!(
        classify(ratios(Some(0.5), 0.5, 0.5, 1.0000000000000002)),
        Regime::VerticalUpAnnularFlow
    );
}

#[test]
fn vertical_up_missing_curve_a_counts_as_zero() {
    assert_eq!(classify(ratios(None, 0.5, 2.0, 0.5)), Regime::VerticalUpBubbleFlow);
    assert_eq!(classify(ratios(None, 2.0, 2.0, 0.5)), Regime::VerticalUpFinelyDispersedBubbleFlow);
    assert_eq!(
        classify(ratios(Some(f64::NAN), 0.5, 2.0, 0.5)),
        Regime::VerticalUpFinelyDispersedBubbleFlow
    );
}

#[test]
fn vertical_up_curve_a_guard_keeps_finite_velocities() {
    assert_eq!(curve_a_guard(scalar(1.5)).map(double), Some(1.5));
    assert_eq!(curve_a_guard(scalar(-0.0)).map(|v| v.to_bits()), Some((-0.0f64).to_bits()));
    assert!(curve_a_guard(scalar(f64::NAN)).is_none());
    assert!(curve_a_guard(scalar(f64::INFINITY)).is_none());
    assert!(curve_a_guard(scalar(f64::NEG_INFINITY)).is_none());
}

#[test]
fn vertical_up_annular_case() {
    let mut l = line(ANNULAR);
    l.unit_transfer(rescale);
    assert!(l.flow_regime(rescale, measure).is_ok());
    assert_eq!(l.state.regime_enum, Regime::VerticalUpAnnularFlow);
    assert_eq!(l.state.flow_regime, "Vertical Up Annular Flow");
    let r = match measure(l.state.inputs) {
        Ok(r) => r,
        Err(e) => panic!("{}", e.message()),
    };
    assert!(close(double(r.a.unwrap()), 4.686408125951919));
    assert!(close(double(r.b), 0.09373097598168609));
    assert!(close(double(r.c), 1.6955694159554375));
    assert!(close(double(r.e), 1.4910808703957368));
    assert!(l.model_cal(rescale, measure, run).is_ok());
    assert_eq!(l.state.status, Status::Solved);
    let o = Results::from(l.state.outputs);
    assert!(0.0 < o.holdup && o.holdup < 1.0);
    assert!(close(o.holdup, 0.2831480624823405));
    assert!(close(o.friction_loss, 0.11983249685240378));
    assert!(close(o.elevation_loss, 1.6146311790124646));
    assert!(close(o.two_phase_density, 161.46311790124645));
    assert!(close(o.two_phase_velocity, 4.703068888511269));
    assert!(close(o.velocity_head, 0.013757629210025539));
    assert!(close(o.erosion_factor, 0.1813811401642132));
}

#[test]
fn vertical_up_bubble_case() {
    let mut l = line(BUBBLE);
    assert!(l.model_cal(rescale, measure, run).is_ok());
    assert_eq!(l.state.regime_enum, Regime::VerticalUpBubbleFlow);
    assert_eq!(l.state.flow_regime, "Vertical Up Bubble Flow");
    let o = Results::from(l.state.outputs);
    assert!(o.velocity_head > 0.0);
    assert!(o.friction_loss > 0.0);
    assert!(close(o.friction_loss, 0.3119106114574839));
    assert!(close(o.elevation_loss, 4.464662096386));
    assert!(close(o.two_phase_velocity, 3.3532126227173205));
    assert!(close(o.liquid_fraction, 0.8888888888888888));
    assert!(close(o.no_slip_density, 444.66666666666663));
    assert!(close(o.velocity_head, 0.025483422608669936));
    assert!(close(o.erosion_factor, 0.33597447477932596));
    assert!(close(1.0 - o.holdup, 0.10749757100682726));
}

#[test]
fn vertical_up_slug_case() {
    let mut l = line(SLUG);
    assert!(l.model_cal(rescale, measure, run).is_ok());
    assert_eq!(l.state.regime_enum, Regime::VerticalUpSlugAndChurnFlow);
    assert_eq!(l.state.flow_regime, "Vertical Up Slug and Churn Flow");
    let o = Results::from(l.state.outputs);
    assert!(close(o.slug_velocity, 5.461426896757609));
    assert!(close(o.slug_length, 3.0810200000000005));
    assert!(close(o.slug_unit_length, 5.453462805908425));
    assert!(close(o.slug_density, 478.2959229022288));
    assert!(close(o.slug_unit_density, 333.5766254276513));
    assert!(close(o.entrance_length, 35.111274839267026));
    assert!(close(o.velocity_head, 0.0385600701695292));
    assert!(close(o.friction_loss, 1.0039930566420474));
    assert!(close(o.elevation_loss, 3.151711245723486));
    assert!(close(o.erosion_factor, 0.5083775253271483));
}

#[test]
fn vertical_up_similarity_that_cannot_converge_is_degenerate() {
    let calls = std::cell::Cell::new(0u32);
    let finished = std::cell::Cell::new(false);
    let r = similarity_analysis(
        |x: Scalar| {
            calls.set(calls.get() + 1);
            Trial { gap: scalar(1.0), next: x }
        },
        |_| {
            finished.set(true);
            Ok(Outputs::from(Results::default()))
        },
    );
    assert!(matches!(r, Err(SolveError::DegenerateResult)));
    assert_eq!(calls.get(), 100);
    assert!(!finished.get());
    let nan = similarity_analysis(
        |_| Trial { gap: scalar(f64::NAN), next: scalar(f64::NAN) },
        |_| Ok(Outputs::from(Results::default())),
    );
    assert!(matches!(nan, Err(SolveError::DegenerateResult)));
}

#[test]
fn vertical_up_degenerate_solve_is_flagged() {
    let mut l = line(ANNULAR);
    let stuck = |_: Inputs, model: Model| {
        assert_eq!(model, Model::SimilarityAnalysis);
        similarity_analysis(
            |x: Scalar| Trial { gap: scalar(f64::INFINITY), next: x },
            |_| Ok(Outputs::from(Results { holdup: 0.7, ..Results::default() })),
        )
    };
    let r = l.model_cal(rescale, measure, stuck);
    assert!(matches!(r, Err(SolveError::DegenerateResult)));
    assert_eq!(l.state.status, Status::Degenerate);
    assert_eq!(double(l.state.outputs.holdup), 0.0);
    assert_eq!(l.state.regime_enum, Regime::VerticalUpAnnularFlow);
    assert!(!double(l.state.outputs.friction_loss).is_nan());
    assert!(l.model_cal(rescale, measure, run).is_ok());
    assert_eq!(l.state.status, Status::Solved);
    assert!(close(double(l.state.outputs.holdup), 0.2831480624823405));
    let again = l.model_cal(rescale, measure, stuck);
    assert!(matches!(again, Err(SolveError::DegenerateResult)));
    assert_eq!(double(l.state.outputs.holdup), 0.0);
    assert!(close(double(l.state.outputs.friction_loss), 0.11983249685240378));
}

#[test]
fn vertical_up_holdup_factor_changes_branch_at_ten() {
    let k = |z: f64| double(holdup_factor(scalar(z), |_| scalar(1.0), |_| scalar(2.0)));
    assert_eq!(k(9.999999999999998), 1.0);
    assert_eq!(k(-3.0), 1.0);
    assert_eq!(k(10.0), 2.0);
    assert_eq!(k(50.0), 2.0);
    assert_eq!(k(f64::NAN), 2.0);
    let seen = std::cell::Cell::new(0.0);
    let passed = holdup_factor(
        scalar(4.0),
        |z| {
            seen.set(double(z));
            scalar(double(z) * 3.0)
        },
        |_| scalar(0.0),
    );
    assert_eq!(double(passed), 12.0);
    assert_eq!(seen.get(), 4.0);
}

#[test]
fn vertical_up_slug_model_reports_a_flat_balance() {
    let r = slug_model(
        |x: Scalar| NewtonTrial { slope: scalar(0.0), gap: scalar(0.0), next: x },
        |_| Ok(Outputs::from(Results::default())),
    );
    assert!(matches!(r, Err(SolveError::SingularDerivative)));
    let started = slug_model(
        |x: Scalar| NewtonTrial { slope: scalar(1.0), gap: scalar(0.0), next: x },
        |x: Scalar| Ok(Outputs::from(Results { holdup: double(x), ..Results::default() })),
    );
    match started {
        Ok(o) => assert_eq!(double(o.holdup), 0.1),
        Err(e) => panic!("{}", e.message()),
    }
}

#[test]
fn vertical_up_bubble_model_starts_at_a_half() {
    let r = bubble_model(
        |x: Scalar| Trial { gap: scalar(0.0), next: x },
        |x: Scalar| Ok(Outputs::from(Results { holdup: double(x), ..Results::default() })),
    );
    match r {
        Ok(o) => assert_eq!(double(o.holdup), 0.5),
        Err(e) => panic!("{}", e.message()),
    }
    let failed = bubble_model(
        |x: Scalar| Trial { gap: scalar(1.0), next: x },
        |_| Ok(Outputs::from(Results::default())),
    );
    assert!(matches!(failed, Err(SolveError::NonConvergence)));
}

#[test]
fn vertical_up_rejects_invalid_inputs() {
    let mut v = BUBBLE;
    v[1] = 0.0;
    let made = VerticalUp::new(
        scalar(v[0]), scalar(v[1]), scalar(v[2]), scalar(v[3]), scalar(v[4]), scalar(v[5]),
        scalar(v[6]), scalar(v[7]), scalar(v[8]), scalar(v[9]), scalar(v[10]),
    );
    assert!(matches!(made, Err(SolveError::InvalidInput)));
}
