//! The sampler configuration model: one sampling method plus shared
//! penalty and grammar settings.
//!
//! Verus does not reason about floating-point arithmetic, and none of the
//! logic here ever computes with the real-valued parameters: they are only
//! selected, defaulted and handed on to the runtime stages.  Every
//! real-valued field is therefore carried as the bit pattern of an IEEE-754
//! single-precision value (`u32`), which the runtime adapter decodes when it
//! constructs the native stages.

use vstd::prelude::*;
use crate::grammar::GrammarConfig;

verus! {

/// Seed shared by every seeded default.
pub const DEFAULT_SEED: u32 = 1234;

/// IEEE-754 single-precision bit pattern of 0.0.
pub const F32_0_0_BITS: u32 = 0x0000_0000;

/// IEEE-754 single-precision bit pattern of 0.05.
pub const F32_0_05_BITS: u32 = 0x3D4C_CCCD;

/// IEEE-754 single-precision bit pattern of 0.1.
pub const F32_0_1_BITS: u32 = 0x3DCC_CCCD;

/// IEEE-754 single-precision bit pattern of 0.8.
pub const F32_0_8_BITS: u32 = 0x3F4C_CCCD;

/// IEEE-754 single-precision bit pattern of 0.95.
pub const F32_0_95_BITS: u32 = 0x3F73_3333;

/// IEEE-754 single-precision bit pattern of 1.0.
pub const F32_1_0_BITS: u32 = 0x3F80_0000;

/// IEEE-754 single-precision bit pattern of 1.75.
pub const F32_1_75_BITS: u32 = 0x3FE0_0000;

/// IEEE-754 single-precision bit pattern of 5.0.
pub const F32_5_0_BITS: u32 = 0x40A0_0000;

/// A complete sampling configuration: the chosen method, the shared
/// repetition-penalty parameters (applied whatever the method), and an
/// optional grammar constraint.
///
/// `penalty_last_n == -1` is the sentinel the runtime penalty stage reads
/// as "no penalty window"; this module passes it through unchanged.
#[derive(Clone, Debug, PartialEq)]
pub struct SamplerConfig {
    pub method: SamplerMethod,
    pub penalty_last_n: i32,
    /// Repetition-penalty multiplier, as IEEE-754 bits.
    pub penalty_repeat: u32,
    /// Frequency-penalty coefficient, as IEEE-754 bits.
    pub penalty_freq: u32,
    /// Presence-penalty coefficient, as IEEE-754 bits.
    pub penalty_present: u32,
    pub grammar: Option<GrammarConfig>,
}

impl Default for SamplerConfig {
    /// All penalties disabled, no grammar, and the default method
    /// (Mirostat v2 with its own defaults).
    fn default() -> (d: Self)
        ensures
            d == (SamplerConfig {
                method: SamplerMethod::MirostatV2(MirostatV2 {
                    seed: DEFAULT_SEED,
                    temperature: F32_0_8_BITS,
                    tau: F32_5_0_BITS,
                    eta: F32_0_1_BITS,
                }),
                penalty_last_n: -1i32,
                penalty_repeat: F32_0_0_BITS,
                penalty_freq: F32_0_0_BITS,
                penalty_present: F32_0_0_BITS,
                grammar: None,
            }),
    {
        SamplerConfig {
            method: SamplerMethod::MirostatV2(MirostatV2 {
                seed: DEFAULT_SEED,
                temperature: F32_0_8_BITS,
                tau: F32_5_0_BITS,
                eta: F32_0_1_BITS,
            }),
            penalty_last_n: -1,
            penalty_repeat: F32_0_0_BITS,
            penalty_freq: F32_0_0_BITS,
            penalty_present: F32_0_0_BITS,
            grammar: None,
        }
    }
}

/// The closed choice of sampling strategies: exactly one variant is active
/// per configuration, and each variant carries its own parameters and its
/// own defaults.
#[derive(Clone, Copy, Debug, PartialEq, Eq)]
pub enum SamplerMethod {
    Greedy(Greedy),
    DRY(DRY),
    TopK(TopK),
    TopP(TopP),
    MinP(MinP),
    XTC(XTC),
    TypicalP(TypicalP),
    Temperature(Temperature),
    MirostatV1(MirostatV1),
    MirostatV2(MirostatV2),
}

/// Always picks the highest-probability token; no parameters.
#[derive(Clone, Copy, Debug, PartialEq, Eq)]
pub struct Greedy {}

impl Default for Greedy {
    fn default() -> (d: Self)
        ensures
            d == (Greedy {}),
    {
        Greedy {}
    }
}

/// Repetition breaking via an n-gram penalty.
#[derive(Clone, Copy, Debug, PartialEq, Eq)]
pub struct DRY {
    pub seed: u32,
    /// Penalty multiplier, as IEEE-754 bits.
    pub dry_multiplier: u32,
    /// Penalty base, as IEEE-754 bits.
    pub dry_base: u32,
    pub dry_allowed_length: i32,
    pub dry_penalty_last_n: i32,
}

impl Default for DRY {
    fn default() -> (d: Self)
        ensures
            d == (DRY {
                seed: DEFAULT_SEED,
                dry_multiplier: F32_0_0_BITS,
                dry_base: F32_1_75_BITS,
                dry_allowed_length: 2,
                dry_penalty_last_n: -1i32,
            }),
    {
        DRY {
            seed: DEFAULT_SEED,
            dry_multiplier: F32_0_0_BITS,
            dry_base: F32_1_75_BITS,
            dry_allowed_length: 2,
            dry_penalty_last_n: -1,
        }
    }
}

/// Restrict sampling to the k highest-probability tokens.
#[derive(Clone, Copy, Debug, PartialEq, Eq)]
pub struct TopK {
    pub top_k: i32,
    pub seed: u32,
}

impl Default for TopK {
    fn default() -> (d: Self)
        ensures
            d == (TopK { top_k: 40, seed: DEFAULT_SEED }),
    {
        TopK { top_k: 40, seed: DEFAULT_SEED }
    }
}

/// Nucleus sampling: keep the smallest token set whose cumulative
/// probability exceeds `top_p`.
#[derive(Clone, Copy, Debug, PartialEq, Eq)]
pub struct TopP {
    pub seed: u32,
    pub min_keep: u32,
    /// Cumulative-probability threshold, as IEEE-754 bits.
    pub top_p: u32,
}

impl Default for TopP {
    fn default() -> (d: Self)
        ensures
            d == (TopP { seed: DEFAULT_SEED, min_keep: 0, top_p: F32_0_95_BITS }),
    {
        TopP { seed: DEFAULT_SEED, min_keep: 0, top_p: F32_0_95_BITS }
    }
}

/// Minimum-probability-ratio filtering.
#[derive(Clone, Copy, Debug, PartialEq, Eq)]
pub struct MinP {
    pub seed: u32,
    pub min_keep: u32,
    /// Probability-ratio threshold, as IEEE-754 bits.
    pub min_p: u32,
}

impl Default for MinP {
    fn default() -> (d: Self)
        ensures
            d == (MinP { seed: DEFAULT_SEED, min_keep: 0, min_p: F32_0_05_BITS }),
    {
        MinP { seed: DEFAULT_SEED, min_keep: 0, min_p: F32_0_05_BITS }
    }
}

/// Exclude-top-choices sampling.
#[derive(Clone, Copy, Debug, PartialEq, Eq)]
pub struct XTC {
    pub seed: u32,
    /// Exclusion probability, as IEEE-754 bits.
    pub xtc_probability: u32,
    /// Exclusion threshold, as IEEE-754 bits.
    pub xtc_threshold: u32,
    pub min_keep: u32,
}

impl Default for XTC {
    fn default() -> (d: Self)
        ensures
            d == (XTC {
                seed: DEFAULT_SEED,
                xtc_probability: F32_0_0_BITS,
                xtc_threshold: F32_0_1_BITS,
                min_keep: 0,
            }),
    {
        XTC {
            seed: DEFAULT_SEED,
            xtc_probability: F32_0_0_BITS,
            xtc_threshold: F32_0_1_BITS,
            min_keep: 0,
        }
    }
}

/// Locally-typical sampling.
#[derive(Clone, Copy, Debug, PartialEq, Eq)]
pub struct TypicalP {
    pub seed: u32,
    /// Typicality threshold, as IEEE-754 bits.
    pub typ_p: u32,
    pub min_keep: u32,
}

impl Default for TypicalP {
    fn default() -> (d: Self)
        ensures
            d == (TypicalP { seed: DEFAULT_SEED, typ_p: F32_1_0_BITS, min_keep: 0 }),
    {
        TypicalP { seed: DEFAULT_SEED, typ_p: F32_1_0_BITS, min_keep: 0 }
    }
}

/// Pure temperature-scaled draw.
#[derive(Clone, Copy, Debug, PartialEq, Eq)]
pub struct Temperature {
    pub seed: u32,
    /// Scaling temperature, as IEEE-754 bits.
    pub temperature: u32,
}

impl Default for Temperature {
    fn default() -> (d: Self)
        ensures
            d == (Temperature { seed: DEFAULT_SEED, temperature: F32_0_8_BITS }),
    {
        Temperature { seed: DEFAULT_SEED, temperature: F32_0_8_BITS }
    }
}

/// Target-entropy adaptive sampling, version 1.
#[derive(Clone, Copy, Debug, PartialEq, Eq)]
pub struct MirostatV1 {
    pub seed: u32,
    /// Scaling temperature, as IEEE-754 bits.
    pub temperature: u32,
    /// Target entropy, as IEEE-754 bits.
    pub tau: u32,
    /// Learning rate, as IEEE-754 bits.
    pub eta: u32,
}

impl Default for MirostatV1 {
    fn default() -> (d: Self)
        ensures
            d == (MirostatV1 {
                seed: DEFAULT_SEED,
                temperature: F32_0_8_BITS,
                tau: F32_5_0_BITS,
                eta: F32_0_1_BITS,
            }),
    {
        MirostatV1 {
            seed: DEFAULT_SEED,
            temperature: F32_0_8_BITS,
            tau: F32_5_0_BITS,
            eta: F32_0_1_BITS,
        }
    }
}

/// Target-entropy adaptive sampling, version 2 (the default method).
#[derive(Clone, Copy, Debug, PartialEq, Eq)]
pub struct MirostatV2 {
    pub seed: u32,
    /// Scaling temperature, as IEEE-754 bits.
    pub temperature: u32,
    /// Target entropy, as IEEE-754 bits.
    pub tau: u32,
    /// Learning rate, as IEEE-754 bits.
    pub eta: u32,
}

impl Default for MirostatV2 {
    fn default() -> (d: Self)
        ensures
            d == (MirostatV2 {
                seed: DEFAULT_SEED,
                temperature: F32_0_8_BITS,
                tau: F32_5_0_BITS,
                eta: F32_0_1_BITS,
            }),
    {
        MirostatV2 {
            seed: DEFAULT_SEED,
            temperature: F32_0_8_BITS,
            tau: F32_5_0_BITS,
            eta: F32_0_1_BITS,
        }
    }
}

} // verus!
