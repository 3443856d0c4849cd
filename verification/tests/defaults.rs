use sampler_pipeline::config::{
    SamplerConfig, SamplerMethod, Greedy, DRY, TopK, TopP, MinP, XTC, TypicalP, Temperature,
    MirostatV1, MirostatV2, DEFAULT_SEED, F32_0_0_BITS, F32_0_05_BITS, F32_0_1_BITS, F32_0_8_BITS,
    F32_0_95_BITS, F32_1_0_BITS, F32_1_75_BITS, F32_5_0_BITS,
};

#[test]
fn bit_constants_match_their_values() {
    assert_eq!(F32_0_0_BITS, 0.0f32.to_bits());
    assert_eq!(F32_0_05_BITS, 0.05f32.to_bits());
    assert_eq!(F32_0_1_BITS, 0.1f32.to_bits());
    assert_eq!(F32_0_8_BITS, 0.8f32.to_bits());
    assert_eq!(F32_0_95_BITS, 0.95f32.to_bits());
    assert_eq!(F32_1_0_BITS, 1.0f32.to_bits());
    assert_eq!(F32_1_75_BITS, 1.75f32.to_bits());
    assert_eq!(F32_5_0_BITS, 5.0f32.to_bits());
}

#[test]
fn default_sampler_config() {
    let cfg = SamplerConfig::default();
    assert_eq!(
        cfg.method,
        SamplerMethod::MirostatV2(MirostatV2 {
            seed: 1234,
            temperature: 0.8f32.to_bits(),
            tau: 5.0f32.to_bits(),
            eta: 0.1f32.to_bits(),
        })
    );
    assert_eq!(cfg.penalty_last_n, -1);
    assert_eq!(cfg.penalty_repeat, 0.0f32.to_bits());
    assert_eq!(cfg.penalty_freq, 0.0f32.to_bits());
    assert_eq!(cfg.penalty_present, 0.0f32.to_bits());
    assert!(cfg.grammar.is_none());
}

#[test]
fn default_greedy() {
    assert_eq!(Greedy::default(), Greedy {});
}

#[test]
fn default_dry() {
    assert_eq!(
        DRY::default(),
        DRY {
            seed: DEFAULT_SEED,
            dry_multiplier: 0.0f32.to_bits(),
            dry_base: 1.75f32.to_bits(),
            dry_allowed_length: 2,
            dry_penalty_last_n: -1,
        }
    );
}

#[test]
fn default_top_k() {
    assert_eq!(TopK::default(), TopK { top_k: 40, seed: 1234 });
}

#[test]
fn default_top_p() {
    assert_eq!(
        TopP::default(),
        TopP { seed: 1234, min_keep: 0, top_p: 0.95f32.to_bits() }
    );
}

#[test]
fn default_min_p() {
    assert_eq!(
        MinP::default(),
        MinP { seed: 1234, min_keep: 0, min_p: 0.05f32.to_bits() }
    );
}

#[test]
fn default_xtc() {
    assert_eq!(
        XTC::default(),
        XTC {
            seed: 1234,
            xtc_probability: 0.0f32.to_bits(),
            xtc_threshold: 0.1f32.to_bits(),
            min_keep: 0,
        }
    );
}

#[test]
fn default_typical_p() {
    assert_eq!(
        TypicalP::default(),
        TypicalP { seed: 1234, typ_p: 1.0f32.to_bits(), min_keep: 0 }
    );
}

#[test]
fn default_temperature() {
    assert_eq!(
        Temperature::default(),
        Temperature { seed: 1234, temperature: 0.8f32.to_bits() }
    );
}

#[test]
fn default_mirostat_v1() {
    assert_eq!(
        MirostatV1::default(),
        MirostatV1 {
            seed: 1234,
            temperature: 0.8f32.to_bits(),
            tau: 5.0f32.to_bits(),
            eta: 0.1f32.to_bits(),
        }
    );
}

#[test]
fn default_mirostat_v2() {
    assert_eq!(
        MirostatV2::default(),
        MirostatV2 {
            seed: 1234,
            temperature: 0.8f32.to_bits(),
            tau: 5.0f32.to_bits(),
            eta: 0.1f32.to_bits(),
        }
    );
}
