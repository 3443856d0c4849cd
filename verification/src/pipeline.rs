//! Pipeline assembly: turning a [`SamplerConfig`] into the ordered stage
//! sequence that a model runtime applies to a token distribution.
//!
//! The builder here owns the order-sensitive logic — which stages appear,
//! with which parameters, in which order — and nothing else.  Each stage is
//! a plain descriptor; realising a descriptor against a concrete runtime
//! (and decoding the IEEE-754 bit patterns back into floating-point values)
//! is the adapter's job, outside this crate's logic.

use vstd::prelude::*;
use crate::config::{SamplerConfig, SamplerMethod};

verus! {

/// One transformation step of the sampling pipeline.  Real-valued
/// parameters are carried as IEEE-754 single-precision bit patterns.
#[derive(Clone, Debug, PartialEq)]
pub enum Stage {
    /// Masks the distribution to the tokens legal under the grammar,
    /// starting from the named root rule.
    Grammar { grammar_str: String, grammar_root: String },
    /// Repetition penalties over the last `penalty_last_n` tokens
    /// (`-1` is the runtime's "no penalty window" sentinel).
    Penalties {
        penalty_last_n: i32,
        penalty_repeat: u32,
        penalty_freq: u32,
        penalty_present: u32,
    },
    /// Deterministically picks the highest-probability token.
    GreedyArgmax,
    /// DRY n-gram repetition penalty with its sequence breakers.
    Dry {
        dry_multiplier: u32,
        dry_base: u32,
        dry_allowed_length: i32,
        dry_penalty_last_n: i32,
        sequence_breakers: Vec<String>,
    },
    /// Restricts the distribution to the `top_k` most probable tokens.
    TopKFilter { top_k: i32 },
    /// Nucleus filtering at cumulative probability `top_p`.
    TopPFilter { top_p: u32, min_keep: u32 },
    /// Minimum-probability-ratio filtering.
    MinPFilter { min_p: u32, min_keep: u32 },
    /// Exclude-top-choices filtering.
    XtcFilter { xtc_probability: u32, xtc_threshold: u32, min_keep: u32, seed: u32 },
    /// Locally-typical filtering.
    TypicalFilter { typ_p: u32, min_keep: u32 },
    /// Scales the distribution by a temperature.
    TemperatureScale { temperature: u32 },
    /// Draws a token from the remaining distribution with a seeded RNG.
    SeededDraw { seed: u32 },
    /// Mirostat v1 adaptive draw over a candidate window.
    MirostatV1Draw { vocab_size: i32, seed: u32, tau: u32, eta: u32, window: i32 },
    /// Mirostat v2 adaptive draw.
    MirostatV2Draw { seed: u32, tau: u32, eta: u32 },
}

/// The mathematical image of a [`Stage`]: strings become character
/// sequences, everything else is carried as is.
pub enum StageModel {
    Grammar { grammar_str: Seq<char>, grammar_root: Seq<char> },
    Penalties {
        penalty_last_n: i32,
        penalty_repeat: u32,
        penalty_freq: u32,
        penalty_present: u32,
    },
    GreedyArgmax,
    Dry {
        dry_multiplier: u32,
        dry_base: u32,
        dry_allowed_length: i32,
        dry_penalty_last_n: i32,
        sequence_breakers: Seq<Seq<char>>,
    },
    TopKFilter { top_k: i32 },
    TopPFilter { top_p: u32, min_keep: u32 },
    MinPFilter { min_p: u32, min_keep: u32 },
    XtcFilter { xtc_probability: u32, xtc_threshold: u32, min_keep: u32, seed: u32 },
    TypicalFilter { typ_p: u32, min_keep: u32 },
    TemperatureScale { temperature: u32 },
    SeededDraw { seed: u32 },
    MirostatV1Draw { vocab_size: i32, seed: u32, tau: u32, eta: u32, window: i32 },
    MirostatV2Draw { seed: u32, tau: u32, eta: u32 },
}

impl View for Stage {
    type V = StageModel;

    open spec fn view(&self) -> StageModel {
        match self {
            Stage::Grammar { grammar_str, grammar_root } => StageModel::Grammar {
                grammar_str: grammar_str@,
                grammar_root: grammar_root@,
            },
            Stage::Penalties { penalty_last_n, penalty_repeat, penalty_freq, penalty_present } =>
                StageModel::Penalties {
                    penalty_last_n: *penalty_last_n,
                    penalty_repeat: *penalty_repeat,
                    penalty_freq: *penalty_freq,
                    penalty_present: *penalty_present,
                },
            Stage::GreedyArgmax => StageModel::GreedyArgmax,
            Stage::Dry {
                dry_multiplier,
                dry_base,
                dry_allowed_length,
                dry_penalty_last_n,
                sequence_breakers,
            } => StageModel::Dry {
                dry_multiplier: *dry_multiplier,
                dry_base: *dry_base,
                dry_allowed_length: *dry_allowed_length,
                dry_penalty_last_n: *dry_penalty_last_n,
                sequence_breakers: sequence_breakers.deep_view(),
            },
            Stage::TopKFilter { top_k } => StageModel::TopKFilter { top_k: *top_k },
            Stage::TopPFilter { top_p, min_keep } => StageModel::TopPFilter {
                top_p: *top_p,
                min_keep: *min_keep,
            },
            Stage::MinPFilter { min_p, min_keep } => StageModel::MinPFilter {
                min_p: *min_p,
                min_keep: *min_keep,
            },
            Stage::XtcFilter { xtc_probability, xtc_threshold, min_keep, seed } =>
                StageModel::XtcFilter {
                    xtc_probability: *xtc_probability,
                    xtc_threshold: *xtc_threshold,
                    min_keep: *min_keep,
                    seed: *seed,
                },
            Stage::TypicalFilter { typ_p, min_keep } => StageModel::TypicalFilter {
                typ_p: *typ_p,
                min_keep: *min_keep,
            },
            Stage::TemperatureScale { temperature } => StageModel::TemperatureScale {
                temperature: *temperature,
            },
            Stage::SeededDraw { seed } => StageModel::SeededDraw { seed: *seed },
            Stage::MirostatV1Draw { vocab_size, seed, tau, eta, window } =>
                StageModel::MirostatV1Draw {
                    vocab_size: *vocab_size,
                    seed: *seed,
                    tau: *tau,
                    eta: *eta,
                    window: *window,
                },
            Stage::MirostatV2Draw { seed, tau, eta } => StageModel::MirostatV2Draw {
                seed: *seed,
                tau: *tau,
                eta: *eta,
            },
        }
    }
}

/// The views of a stage sequence, element by element.
pub open spec fn stage_views(s: Seq<Stage>) -> Seq<StageModel> {
    s.map_values(|st: Stage| st@)
}

/// The assembled pipeline: an ordered stage sequence, applied left to
/// right to a distribution by the runtime.
#[derive(Clone, Debug, PartialEq)]
pub struct Pipeline {
    pub stages: Vec<Stage>,
}

impl View for Pipeline {
    type V = Seq<StageModel>;

    open spec fn view(&self) -> Seq<StageModel> {
        stage_views(self.stages@)
    }
}

/// The grammar prefix of the pipeline: one masking stage when a grammar is
/// configured, nothing otherwise.
pub open spec fn grammar_stages_model(c: SamplerConfig) -> Seq<StageModel> {
    match c.grammar {
        Some(g) => seq![
            (StageModel::Grammar { grammar_str: g.grammar_str@, grammar_root: g.grammar_root@ }),
        ],
        None => seq![],
    }
}

/// The shared penalty stage, present whatever the method and whatever the
/// penalty values.
pub open spec fn penalty_stage_model(c: SamplerConfig) -> StageModel {
    StageModel::Penalties {
        penalty_last_n: c.penalty_last_n,
        penalty_repeat: c.penalty_repeat,
        penalty_freq: c.penalty_freq,
        penalty_present: c.penalty_present,
    }
}

/// The fixed sequence-breaker set of the DRY stage.  A behavioural contract
/// of the default configuration, not a tunable.
pub open spec fn dry_breakers_model() -> Seq<Seq<char>> {
    seq!["\n"@, ":"@, "\""@, "*"@]
}

/// Candidate-window size of the Mirostat v1 draw stage.
pub const MIROSTAT_V1_WINDOW: i32 = 100;

/// The method-specific suffix of the pipeline.  Every variant except
/// Greedy and the two Mirostat variants ends in a seeded draw; Greedy ends
/// in a deterministic argmax; the Mirostat variants end in their own
/// adaptive draw, with no separate draw stage after it.
pub open spec fn method_stages_model(vocab_size: i32, m: SamplerMethod) -> Seq<StageModel> {
    match m {
        SamplerMethod::Greedy(_) => seq![StageModel::GreedyArgmax],
        SamplerMethod::DRY(c) => seq![
            (StageModel::Dry {
                dry_multiplier: c.dry_multiplier,
                dry_base: c.dry_base,
                dry_allowed_length: c.dry_allowed_length,
                dry_penalty_last_n: c.dry_penalty_last_n,
                sequence_breakers: dry_breakers_model(),
            }),
            (StageModel::SeededDraw { seed: c.seed }),
        ],
        SamplerMethod::TopK(c) => seq![
            (StageModel::TopKFilter { top_k: c.top_k }),
            (StageModel::SeededDraw { seed: c.seed }),
        ],
        SamplerMethod::TopP(c) => seq![
            (StageModel::TopPFilter { top_p: c.top_p, min_keep: c.min_keep }),
            (StageModel::SeededDraw { seed: c.seed }),
        ],
        SamplerMethod::MinP(c) => seq![
            (StageModel::MinPFilter { min_p: c.min_p, min_keep: c.min_keep }),
            (StageModel::SeededDraw { seed: c.seed }),
        ],
        SamplerMethod::XTC(c) => seq![
            (StageModel::XtcFilter {
                xtc_probability: c.xtc_probability,
                xtc_threshold: c.xtc_threshold,
                min_keep: c.min_keep,
                seed: c.seed,
            }),
            (StageModel::SeededDraw { seed: c.seed }),
        ],
        SamplerMethod::TypicalP(c) => seq![
            (StageModel::TypicalFilter { typ_p: c.typ_p, min_keep: c.min_keep }),
            (StageModel::SeededDraw { seed: c.seed }),
        ],
        SamplerMethod::Temperature(c) => seq![
            (StageModel::TemperatureScale { temperature: c.temperature }),
            (StageModel::SeededDraw { seed: c.seed }),
        ],
        SamplerMethod::MirostatV1(c) => seq![
            (StageModel::TemperatureScale { temperature: c.temperature }),
            (StageModel::MirostatV1Draw {
                vocab_size: vocab_size,
                seed: c.seed,
                tau: c.tau,
                eta: c.eta,
                window: MIROSTAT_V1_WINDOW,
            }),
        ],
        SamplerMethod::MirostatV2(c) => seq![
            (StageModel::TemperatureScale { temperature: c.temperature }),
            (StageModel::MirostatV2Draw { seed: c.seed, tau: c.tau, eta: c.eta }),
        ],
    }
}

/// The full pipeline for a configuration: the grammar prefix, then the
/// penalty stage, then the method-specific suffix.
pub open spec fn pipeline_model(vocab_size: i32, c: SamplerConfig) -> Seq<StageModel> {
    grammar_stages_model(c) + seq![penalty_stage_model(c)] + method_stages_model(vocab_size, c.method)
}

/// The fixed sequence breakers handed to the DRY stage: newline, colon,
/// double quote and asterisk.
pub fn dry_sequence_breakers() -> (v: Vec<String>)
    ensures
        v.deep_view() == dry_breakers_model(),
{
    let mut v: Vec<String> = Vec::new();
    v.push("\n".to_owned());
    v.push(":".to_owned());
    v.push("\"".to_owned());
    v.push("*".to_owned());
    proof {
        assert(v.deep_view() =~= dry_breakers_model());
    }
    v
}

/// Builds the method-specific stage suffix for one method choice.
pub fn method_stages(vocab_size: i32, method: &SamplerMethod) -> (v: Vec<Stage>)
    ensures
        stage_views(v@) == method_stages_model(vocab_size, *method),
{
    let mut v: Vec<Stage> = Vec::new();
    match *method {
        SamplerMethod::Greedy(_) => {
            v.push(Stage::GreedyArgmax);
        }
        SamplerMethod::DRY(c) => {
            v.push(Stage::Dry {
                dry_multiplier: c.dry_multiplier,
                dry_base: c.dry_base,
                dry_allowed_length: c.dry_allowed_length,
                dry_penalty_last_n: c.dry_penalty_last_n,
                sequence_breakers: dry_sequence_breakers(),
            });
            v.push(Stage::SeededDraw { seed: c.seed });
        }
        SamplerMethod::TopK(c) => {
            v.push(Stage::TopKFilter { top_k: c.top_k });
            v.push(Stage::SeededDraw { seed: c.seed });
        }
        SamplerMethod::TopP(c) => {
            v.push(Stage::TopPFilter { top_p: c.top_p, min_keep: c.min_keep });
            v.push(Stage::SeededDraw { seed: c.seed });
        }
        SamplerMethod::MinP(c) => {
            v.push(Stage::MinPFilter { min_p: c.min_p, min_keep: c.min_keep });
            v.push(Stage::SeededDraw { seed: c.seed });
        }
        SamplerMethod::XTC(c) => {
            v.push(Stage::XtcFilter {
                xtc_probability: c.xtc_probability,
                xtc_threshold: c.xtc_threshold,
                min_keep: c.min_keep,
                seed: c.seed,
            });
            v.push(Stage::SeededDraw { seed: c.seed });
        }
        SamplerMethod::TypicalP(c) => {
            v.push(Stage::TypicalFilter { typ_p: c.typ_p, min_keep: c.min_keep });
            v.push(Stage::SeededDraw { seed: c.seed });
        }
        SamplerMethod::Temperature(c) => {
            v.push(Stage::TemperatureScale { temperature: c.temperature });
            v.push(Stage::SeededDraw { seed: c.seed });
        }
        SamplerMethod::MirostatV1(c) => {
            v.push(Stage::TemperatureScale { temperature: c.temperature });
            v.push(Stage::MirostatV1Draw {
                vocab_size: vocab_size,
                seed: c.seed,
                tau: c.tau,
                eta: c.eta,
                window: MIROSTAT_V1_WINDOW,
            });
        }
        SamplerMethod::MirostatV2(c) => {
            v.push(Stage::TemperatureScale { temperature: c.temperature });
            v.push(Stage::MirostatV2Draw { seed: c.seed, tau: c.tau, eta: c.eta });
        }
    }
    proof {
        assert(stage_views(v@) =~= method_stages_model(vocab_size, *method));
    }
    v
}

/// Assembles the full pipeline for a configuration.
///
/// Grammar masking, when configured, comes first, so that every later
/// stage sees only grammar-legal tokens; the shared penalty stage follows
/// unconditionally (a no-op at the disabled defaults, but its position is
/// fixed); the method-specific stages close the sequence.  The builder
/// never fails: the one fallible step, reading a grammar file, happened
/// upstream when the configuration was made.
pub fn build_pipeline(vocab_size: i32, config: SamplerConfig) -> (p: Pipeline)
    ensures
        p@ == pipeline_model(vocab_size, config),
{
    let SamplerConfig {
        method,
        penalty_last_n,
        penalty_repeat,
        penalty_freq,
        penalty_present,
        grammar,
    } = config;
    let mut stages: Vec<Stage> = Vec::new();
    match grammar {
        Some(g) => {
            stages.push(Stage::Grammar {
                grammar_str: g.grammar_str,
                grammar_root: g.grammar_root,
            });
        }
        None => {}
    }
    stages.push(Stage::Penalties { penalty_last_n, penalty_repeat, penalty_freq, penalty_present });
    let mut tail = method_stages(vocab_size, &method);
    stages.append(&mut tail);
    let p = Pipeline { stages };
    proof {
        assert(p@ =~= pipeline_model(vocab_size, config));
    }
    p
}

/// The seed a method's final draw carries: the `seed` field of the active
/// variant.  Greedy carries no seed; for it the value is never consulted.
pub open spec fn method_seed(m: SamplerMethod) -> u32
    recommends
        !(m is Greedy),
{
    match m {
        SamplerMethod::Greedy(_) => 0,
        SamplerMethod::DRY(c) => c.seed,
        SamplerMethod::TopK(c) => c.seed,
        SamplerMethod::TopP(c) => c.seed,
        SamplerMethod::MinP(c) => c.seed,
        SamplerMethod::XTC(c) => c.seed,
        SamplerMethod::TypicalP(c) => c.seed,
        SamplerMethod::Temperature(c) => c.seed,
        SamplerMethod::MirostatV1(c) => c.seed,
        SamplerMethod::MirostatV2(c) => c.seed,
    }
}

/// The method-specific suffix holds one or two stages, and none of them is
/// a grammar or penalty stage: those two are the builder's alone.
pub proof fn lemma_method_stages_kinds(vocab_size: i32, m: SamplerMethod)
    ensures
        1 <= method_stages_model(vocab_size, m).len() <= 2,
        forall|i: int|
            0 <= i < method_stages_model(vocab_size, m).len() ==> !(
            #[trigger] method_stages_model(vocab_size, m)[i] is Grammar)
                && !(method_stages_model(vocab_size, m)[i] is Penalties),
{
    let s = method_stages_model(vocab_size, m);
    assert forall|i: int| 0 <= i < s.len() implies !(#[trigger] s[i] is Grammar) && !(s[i]
        is Penalties) by {
        match m {
            SamplerMethod::Greedy(_) => { assert(i == 0); }
            _ => { assert(i == 0 || i == 1); }
        }
    }
}

/// For every method that is neither Greedy nor a Mirostat variant, the
/// method-specific suffix of the pipeline is exactly two stages, and the
/// last is a seeded draw carrying the same seed as the configuration's
/// active variant.
pub proof fn lemma_seeded_methods_end_in_draw(vocab_size: i32, c: SamplerConfig)
    requires
        !(c.method is Greedy),
        !(c.method is MirostatV1),
        !(c.method is MirostatV2),
    ensures
        pipeline_model(vocab_size, c) == grammar_stages_model(c) + seq![penalty_stage_model(c)]
            + method_stages_model(vocab_size, c.method),
        method_stages_model(vocab_size, c.method).len() == 2,
        method_stages_model(vocab_size, c.method).last() == (StageModel::SeededDraw {
            seed: method_seed(c.method),
        }),
{
}

/// For Greedy, the method-specific suffix is exactly one deterministic
/// argmax stage — there is no seed for it to depend on, and no draw stage
/// follows.
pub proof fn lemma_greedy_suffix(vocab_size: i32, c: SamplerConfig)
    requires
        c.method is Greedy,
    ensures
        method_stages_model(vocab_size, c.method) == seq![StageModel::GreedyArgmax],
{
}

/// For the Mirostat variants, the method-specific suffix is exactly two
/// stages — a temperature scale, then the variant's own adaptive draw —
/// and no separate seeded draw trails it.
pub proof fn lemma_mirostat_suffix(vocab_size: i32, c: SamplerConfig)
    requires
        c.method is MirostatV1 || c.method is MirostatV2,
    ensures
        method_stages_model(vocab_size, c.method).len() == 2,
        c.method matches SamplerMethod::MirostatV1(conf) ==> method_stages_model(
            vocab_size,
            c.method,
        ) == (seq![
            (StageModel::TemperatureScale { temperature: conf.temperature }),
            (StageModel::MirostatV1Draw {
                vocab_size: vocab_size,
                seed: conf.seed,
                tau: conf.tau,
                eta: conf.eta,
                window: MIROSTAT_V1_WINDOW,
            }),
        ]),
        c.method matches SamplerMethod::MirostatV2(conf) ==> method_stages_model(
            vocab_size,
            c.method,
        ) == (seq![
            (StageModel::TemperatureScale { temperature: conf.temperature }),
            (StageModel::MirostatV2Draw { seed: conf.seed, tau: conf.tau, eta: conf.eta }),
        ]),
        forall|i: int|
            0 <= i < method_stages_model(vocab_size, c.method).len() ==> !(
            #[trigger] method_stages_model(vocab_size, c.method)[i] is SeededDraw),
{
    let s = method_stages_model(vocab_size, c.method);
    assert forall|i: int| 0 <= i < s.len() implies !(#[trigger] s[i] is SeededDraw) by {
        assert(i == 0 || i == 1);
    }
}

/// Grammar placement: when a grammar is configured, the very first stage
/// of the pipeline is its masking stage and no other grammar stage
/// appears; when none is configured, no grammar stage appears at all.
pub proof fn lemma_grammar_placement(vocab_size: i32, c: SamplerConfig)
    ensures
        c.grammar matches Some(g) ==> pipeline_model(vocab_size, c)[0] == (StageModel::Grammar {
            grammar_str: g.grammar_str@,
            grammar_root: g.grammar_root@,
        }),
        c.grammar is Some ==> forall|i: int|
            1 <= i < pipeline_model(vocab_size, c).len() ==> !(
            #[trigger] pipeline_model(vocab_size, c)[i] is Grammar),
        c.grammar is None ==> forall|i: int|
            0 <= i < pipeline_model(vocab_size, c).len() ==> !(
            #[trigger] pipeline_model(vocab_size, c)[i] is Grammar),
{
    lemma_method_stages_kinds(vocab_size, c.method);
    let pre = grammar_stages_model(c) + seq![penalty_stage_model(c)];
    let suffix = method_stages_model(vocab_size, c.method);
    let whole = pipeline_model(vocab_size, c);
    assert forall|i: int|
        pre.len() <= i < whole.len() implies !(#[trigger] whole[i] is Grammar) by {
        assert(whole[i] == suffix[i - pre.len()]);
    }
}

/// Penalty placement: the penalty stage is present exactly once, directly
/// after the grammar stage when one is configured and first otherwise,
/// whatever the penalty values.
pub proof fn lemma_penalty_placement(vocab_size: i32, c: SamplerConfig)
    ensures
        c.grammar is Some ==> pipeline_model(vocab_size, c)[1] == penalty_stage_model(c),
        c.grammar is None ==> pipeline_model(vocab_size, c)[0] == penalty_stage_model(c),
        ({
            let idx: int = if c.grammar is Some {
                1
            } else {
                0
            };
            forall|i: int|
                0 <= i < pipeline_model(vocab_size, c).len() && i != idx ==> !(
                #[trigger] pipeline_model(vocab_size, c)[i] is Penalties)
        }),
{
    lemma_method_stages_kinds(vocab_size, c.method);
    let pre = grammar_stages_model(c) + seq![penalty_stage_model(c)];
    let suffix = method_stages_model(vocab_size, c.method);
    let whole = pipeline_model(vocab_size, c);
    let idx: int = if c.grammar is Some {
        1
    } else {
        0
    };
    assert forall|i: int|
        0 <= i < whole.len() && i != idx implies !(#[trigger] whole[i] is Penalties) by {
        if i >= pre.len() {
            assert(whole[i] == suffix[i - pre.len()]);
        }
    }
}

} // verus!
