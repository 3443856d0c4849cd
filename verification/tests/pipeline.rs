use sampler_pipeline::config::{
    SamplerConfig, SamplerMethod, Greedy, DRY, TopK, TopP, MinP, XTC, TypicalP, Temperature,
    MirostatV1, MirostatV2,
};
use sampler_pipeline::grammar::GrammarConfig;
use sampler_pipeline::pipeline::{build_pipeline, dry_sequence_breakers, Stage, MIROSTAT_V1_WINDOW};

fn with_method(method: SamplerMethod) -> SamplerConfig {
    SamplerConfig { method, ..SamplerConfig::default() }
}

#[test]
fn scenario_default_config_vocab_32000() {
    let p = build_pipeline(32000, SamplerConfig::default());
    assert_eq!(
        p.stages,
        vec![
            Stage::Penalties {
                penalty_last_n: -1,
                penalty_repeat: 0.0f32.to_bits(),
                penalty_freq: 0.0f32.to_bits(),
                penalty_present: 0.0f32.to_bits(),
            },
            Stage::TemperatureScale { temperature: 0.8f32.to_bits() },
            Stage::MirostatV2Draw {
                seed: 1234,
                tau: 5.0f32.to_bits(),
                eta: 0.1f32.to_bits(),
            },
        ]
    );
}

#[test]
fn scenario_top_k_40_seed_7() {
    let p = build_pipeline(32000, with_method(SamplerMethod::TopK(TopK { top_k: 40, seed: 7 })));
    let n = p.stages.len();
    assert_eq!(
        &p.stages[n - 2..],
        &[Stage::TopKFilter { top_k: 40 }, Stage::SeededDraw { seed: 7 }]
    );
}

#[test]
fn grammar_stage_comes_first_then_penalties() {
    let mut cfg = SamplerConfig::default();
    cfg.grammar = Some(GrammarConfig {
        grammar_str: "root ::= \"x\"".to_string(),
        grammar_root: "root".to_string(),
    });
    let p = build_pipeline(100, cfg.clone());
    assert_eq!(p.stages.len(), 4);
    assert_eq!(
        p.stages[0],
        Stage::Grammar {
            grammar_str: "root ::= \"x\"".to_string(),
            grammar_root: "root".to_string(),
        }
    );
    assert_eq!(
        p.stages[1],
        Stage::Penalties {
            penalty_last_n: -1,
            penalty_repeat: 0.0f32.to_bits(),
            penalty_freq: 0.0f32.to_bits(),
            penalty_present: 0.0f32.to_bits(),
        }
    );

    let no_grammar = build_pipeline(100, SamplerConfig::default());
    assert!(no_grammar.stages.iter().all(|s| !matches!(s, Stage::Grammar { .. })));
    assert!(matches!(no_grammar.stages[0], Stage::Penalties { .. }));
}

#[test]
fn penalty_stage_present_exactly_once_for_every_method() {
    let methods = vec![
        SamplerMethod::Greedy(Greedy::default()),
        SamplerMethod::DRY(DRY::default()),
        SamplerMethod::TopK(TopK::default()),
        SamplerMethod::TopP(TopP::default()),
        SamplerMethod::MinP(MinP::default()),
        SamplerMethod::XTC(XTC::default()),
        SamplerMethod::TypicalP(TypicalP::default()),
        SamplerMethod::Temperature(Temperature::default()),
        SamplerMethod::MirostatV1(MirostatV1::default()),
        SamplerMethod::MirostatV2(MirostatV2::default()),
    ];
    for method in methods {
        let p = build_pipeline(32000, with_method(method));
        let penalty_positions: Vec<usize> = p
            .stages
            .iter()
            .enumerate()
            .filter(|(_, s)| matches!(s, Stage::Penalties { .. }))
            .map(|(i, _)| i)
            .collect();
        assert_eq!(penalty_positions, vec![0]);
    }
}

#[test]
fn seeded_methods_end_in_a_two_stage_suffix_with_their_seed() {
    let cases = vec![
        SamplerMethod::DRY(DRY { seed: 11, ..DRY::default() }),
        SamplerMethod::TopK(TopK { seed: 12, ..TopK::default() }),
        SamplerMethod::TopP(TopP { seed: 13, ..TopP::default() }),
        SamplerMethod::MinP(MinP { seed: 14, ..MinP::default() }),
        SamplerMethod::XTC(XTC { seed: 15, ..XTC::default() }),
        SamplerMethod::TypicalP(TypicalP { seed: 16, ..TypicalP::default() }),
        SamplerMethod::Temperature(Temperature { seed: 17, ..Temperature::default() }),
    ];
    for (i, method) in cases.into_iter().enumerate() {
        let p = build_pipeline(32000, with_method(method));
        // one penalty stage, then exactly two method-specific stages
        assert_eq!(p.stages.len(), 3);
        assert_eq!(*p.stages.last().unwrap(), Stage::SeededDraw { seed: 11 + i as u32 });
    }
}

#[test]
fn greedy_suffix_is_one_argmax_stage() {
    let p = build_pipeline(32000, with_method(SamplerMethod::Greedy(Greedy {})));
    assert_eq!(p.stages.len(), 2);
    assert_eq!(p.stages[1], Stage::GreedyArgmax);
}

#[test]
fn dry_stage_carries_the_fixed_sequence_breakers() {
    let p = build_pipeline(
        32000,
        with_method(SamplerMethod::DRY(DRY {
            seed: 99,
            dry_multiplier: 0.7f32.to_bits(),
            dry_base: 1.75f32.to_bits(),
            dry_allowed_length: 2,
            dry_penalty_last_n: 64,
        })),
    );
    assert_eq!(
        p.stages[1],
        Stage::Dry {
            dry_multiplier: 0.7f32.to_bits(),
            dry_base: 1.75f32.to_bits(),
            dry_allowed_length: 2,
            dry_penalty_last_n: 64,
            sequence_breakers: vec![
                "\n".to_string(),
                ":".to_string(),
                "\"".to_string(),
                "*".to_string(),
            ],
        }
    );
    assert_eq!(p.stages[2], Stage::SeededDraw { seed: 99 });
    assert_eq!(dry_sequence_breakers(), vec!["\n", ":", "\"", "*"]);
}

#[test]
fn mirostat_suffixes_scale_then_draw_without_trailing_draw() {
    let v1 = build_pipeline(
        32000,
        with_method(SamplerMethod::MirostatV1(MirostatV1 {
            seed: 5,
            temperature: 0.9f32.to_bits(),
            tau: 4.0f32.to_bits(),
            eta: 0.2f32.to_bits(),
        })),
    );
    assert_eq!(v1.stages.len(), 3);
    assert_eq!(v1.stages[1], Stage::TemperatureScale { temperature: 0.9f32.to_bits() });
    assert_eq!(
        v1.stages[2],
        Stage::MirostatV1Draw {
            vocab_size: 32000,
            seed: 5,
            tau: 4.0f32.to_bits(),
            eta: 0.2f32.to_bits(),
            window: MIROSTAT_V1_WINDOW,
        }
    );
    assert_eq!(MIROSTAT_V1_WINDOW, 100);

    let v2 = build_pipeline(
        32000,
        with_method(SamplerMethod::MirostatV2(MirostatV2 {
            seed: 6,
            temperature: 0.7f32.to_bits(),
            tau: 3.0f32.to_bits(),
            eta: 0.3f32.to_bits(),
        })),
    );
    assert_eq!(v2.stages.len(), 3);
    assert_eq!(v2.stages[1], Stage::TemperatureScale { temperature: 0.7f32.to_bits() });
    assert_eq!(
        v2.stages[2],
        Stage::MirostatV2Draw { seed: 6, tau: 3.0f32.to_bits(), eta: 0.3f32.to_bits() }
    );
    assert!(!v1.stages.iter().any(|s| matches!(s, Stage::SeededDraw { .. })));
    assert!(!v2.stages.iter().any(|s| matches!(s, Stage::SeededDraw { .. })));
}

#[test]
fn remaining_filter_methods_parameterize_their_filter_stage() {
    let p = build_pipeline(
        8,
        with_method(SamplerMethod::TopP(TopP { seed: 1, min_keep: 2, top_p: 0.5f32.to_bits() })),
    );
    assert_eq!(
        p.stages[1],
        Stage::TopPFilter { top_p: 0.5f32.to_bits(), min_keep: 2 }
    );

    let p = build_pipeline(
        8,
        with_method(SamplerMethod::MinP(MinP { seed: 1, min_keep: 3, min_p: 0.25f32.to_bits() })),
    );
    assert_eq!(
        p.stages[1],
        Stage::MinPFilter { min_p: 0.25f32.to_bits(), min_keep: 3 }
    );

    let p = build_pipeline(
        8,
        with_method(SamplerMethod::XTC(XTC {
            seed: 21,
            xtc_probability: 0.4f32.to_bits(),
            xtc_threshold: 0.2f32.to_bits(),
            min_keep: 4,
        })),
    );
    assert_eq!(
        p.stages[1],
        Stage::XtcFilter {
            xtc_probability: 0.4f32.to_bits(),
            xtc_threshold: 0.2f32.to_bits(),
            min_keep: 4,
            seed: 21,
        }
    );

    let p = build_pipeline(
        8,
        with_method(SamplerMethod::TypicalP(TypicalP {
            seed: 1,
            typ_p: 0.6f32.to_bits(),
            min_keep: 5,
        })),
    );
    assert_eq!(
        p.stages[1],
        Stage::TypicalFilter { typ_p: 0.6f32.to_bits(), min_keep: 5 }
    );

    let p = build_pipeline(
        8,
        with_method(SamplerMethod::Temperature(Temperature {
            seed: 1,
            temperature: 1.5f32.to_bits(),
        })),
    );
    assert_eq!(p.stages[1], Stage::TemperatureScale { temperature: 1.5f32.to_bits() });
}
