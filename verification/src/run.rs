//! The orchestrator: a linear state machine over the phases
//! `ProvisionChannel -> FetchAndMerge -> Publish -> Done`, with no retries
//! and no backward transitions.
//!
//! The machine decides; the caller transports. [`start`] validates the
//! prices, derives both ratios, and hands back the channel-creation action.
//! Each remote response comes back as an [`Event`], and [`Run::step`] answers
//! with the next [`Action`]. A failure while provisioning or fetching aborts
//! the run; the two publishes are independent of one another, `ModelRatio`
//! first, and each reports its own outcome. An already-created channel is
//! never rolled back.

use vstd::prelude::*;
use vstd::string::*;
use crate::descriptor::{ModelIdentity, build_channel_payload, channel_payload_spec};
use crate::fetch::{extract_tables, options_view, scan_options};
use crate::merge::{
    DomainError, PriceQuote, completion_value, is_quotient, lemma_merge_wf, merge_table, merged,
    model_value,
};
use crate::num::{Decimal, quot_spec};
use crate::merge::lemma_merge_sets_both;
use crate::table::{KeyValue, RatioTable, entry_of, json_object, push_json_object};
use crate::text::{chars_of, dec_render, json_string, push_json_string, string_from_chars};

verus! {

/// A failure of a remote call. The fourth failure of the taxonomy, the
/// domain error of the ratio derivation, is [`DomainError`], raised by
/// [`start`] before any remote call.
#[derive(Debug)]
pub enum GatewayError {
    /// The transport failed before a response arrived.
    Transport { message: String },
    /// The gateway answered with a non-2xx status.
    RequestFailed { status: u16, body: String },
    /// The response body did not have the expected shape.
    DecodeFailed { message: String },
}

/// What the caller must do next.
#[derive(Debug)]
pub enum Action {
    /// POST the payload to the channel-creation endpoint.
    CreateChannel { payload: String },
    /// GET the global option list.
    FetchOptions,
    /// PUT the payload to the option-update endpoint.
    UpdateOption { payload: String },
    /// Nothing: the run is over.
    Finish,
}

/// What the caller observed for the previous action.
#[derive(Debug)]
pub enum Event {
    /// A response arrived: its status, its body, and — meaningful only for
    /// the option fetch — the decoded option list, where the body decoded.
    Response { status: u16, body: String, options: Option<Vec<KeyValue>> },
    /// The transport failed.
    Transport { message: String },
}

/// The outcome of one table's publish.
#[derive(Debug)]
pub enum PublishReport {
    NotAttempted,
    Published,
    PublishFailed { error: GatewayError },
}

/// The two possibly-absent tables, as fetched and merged.
#[derive(Debug)]
pub struct Tables {
    pub completion: Option<RatioTable>,
    pub model: Option<RatioTable>,
}

/// The final state of a finished run: both merged tables and the per-table
/// publish outcomes.
#[derive(Debug)]
pub struct RunOutcome {
    pub completion: Option<RatioTable>,
    pub model: Option<RatioTable>,
    pub completion_publish: PublishReport,
    pub model_publish: PublishReport,
}

/// The phase a run stands in.
#[derive(Debug)]
pub enum Phase {
    /// Waiting for the channel-creation response.
    ProvisionChannel,
    /// Waiting for the option-list response.
    FetchAndMerge,
    /// Waiting for the `ModelRatio` update response.
    PublishModel { tables: Tables },
    /// Waiting for the `CompletionRatio` update response.
    PublishCompletion { tables: Tables, model_publish: PublishReport },
    /// The run finished; nothing more to do.
    Done { outcome: RunOutcome },
    /// The run aborted while provisioning or fetching.
    Failed { error: GatewayError },
}

/// The caller's configuration of one run.
#[derive(Debug)]
pub struct RunConfig {
    pub identity: ModelIdentity,
    pub source_token: String,
    pub prices: PriceQuote,
    /// The reference baseline price the model ratio is measured against.
    pub baseline: Decimal,
}

impl RunConfig {
    pub open spec fn wf(self) -> bool {
        self.identity.wf() && self.prices.wf() && self.baseline.wf()
    }
}

/// One run of the provisioning and synchronization sequence.
#[derive(Debug)]
pub struct Run {
    pub config: RunConfig,
    /// The derived completion ratio, fixed at start.
    pub completion_value: Decimal,
    /// The derived model ratio, fixed at start.
    pub model_value: Decimal,
    pub phase: Phase,
}

pub open spec fn is_2xx(status: u16) -> bool {
    200 <= status < 300
}

pub open spec fn opt_view(o: Option<RatioTable>) -> Option<Seq<(Seq<char>, Seq<char>)>> {
    match o {
        Some(t) => Some(t@),
        None => None,
    }
}

pub open spec fn opt_wf(o: Option<RatioTable>) -> bool {
    match o {
        Some(t) => t.wf(),
        None => true,
    }
}

/// The payload of one option update: the table name and the re-serialized
/// table, itself JSON-encoded as a string value.
pub open spec fn option_payload_spec(name: Seq<char>, t: Seq<(Seq<char>, Seq<char>)>) -> Seq<
    char,
> {
    json_object(
        seq![("key"@, json_string(name)), ("value"@, json_string(json_object(t)))],
    )
}

/// Builds the payload of one option update.
pub fn build_option_payload(name: &str, t: &RatioTable) -> (p: String)
    ensures
        p@ == option_payload_spec(name@, t@),
{
    let mut body: Vec<char> = Vec::new();
    push_json_object(&mut body, t);
    let name_c = chars_of(name);
    let mut key_v: Vec<char> = Vec::new();
    push_json_string(&mut key_v, &name_c);
    let mut value_v: Vec<char> = Vec::new();
    push_json_string(&mut value_v, &body);
    let mut entries: Vec<KeyValue> = Vec::new();
    entries.push(KeyValue { key: String::from_str("key"), value: string_from_chars(&key_v) });
    entries.push(KeyValue { key: String::from_str("value"), value: string_from_chars(&value_v) });
    let tb = RatioTable { entries };
    proof {
        assert(tb@ =~~= seq![
            ("key"@, json_string(name@)),
            ("value"@, json_string(json_object(t@))),
        ]);
    }
    let mut out: Vec<char> = Vec::new();
    push_json_object(&mut out, &tb);
    string_from_chars(&out)
}

/// The completion table after fetch and merge, at the view level.
pub open spec fn merged_completion(pre: Run, items: Seq<KeyValue>) -> Option<
    Seq<(Seq<char>, Seq<char>)>,
> {
    match scan_options(options_view(items), "CompletionRatio"@) {
        Some(t) => Some(
            merged(
                t,
                pre.config.identity.source_name@,
                pre.config.identity.gateway_name@,
                dec_render(pre.completion_value),
            ),
        ),
        None => None,
    }
}

/// The model table after fetch and merge, at the view level.
pub open spec fn merged_model(pre: Run, items: Seq<KeyValue>) -> Option<
    Seq<(Seq<char>, Seq<char>)>,
> {
    match scan_options(options_view(items), "ModelRatio"@) {
        Some(t) => Some(
            merged(
                t,
                pre.config.identity.source_name@,
                pre.config.identity.gateway_name@,
                dec_render(pre.model_value),
            ),
        ),
        None => None,
    }
}

/// How a publish response reads as a per-table report.
pub open spec fn report_of(event: Event) -> PublishReport {
    match event {
        Event::Transport { message } => PublishReport::PublishFailed {
            error: GatewayError::Transport { message },
        },
        Event::Response { status, body, options } => if is_2xx(status) {
            PublishReport::Published
        } else {
            PublishReport::PublishFailed {
                error: GatewayError::RequestFailed { status, body },
            }
        },
    }
}

pub open spec fn same_core(pre: Run, post: Run) -> bool {
    &&& post.config == pre.config
    &&& post.completion_value == pre.completion_value
    &&& post.model_value == pre.model_value
}

pub open spec fn failed_with(post: Run, action: Action, e: GatewayError) -> bool {
    post.phase == (Phase::Failed { error: e }) && action is Finish
}

/// The whole transition relation of one step: what the next state and the
/// next action are, for every phase and every event.
pub open spec fn step_spec(pre: Run, event: Event, post: Run, action: Action) -> bool {
    &&& same_core(pre, post)
    &&& match pre.phase {
        Phase::ProvisionChannel => match event {
            Event::Transport { message } => failed_with(
                post,
                action,
                GatewayError::Transport { message },
            ),
            Event::Response { status, body, options } => if is_2xx(status) {
                post.phase is FetchAndMerge && action is FetchOptions
            } else {
                failed_with(post, action, GatewayError::RequestFailed { status, body })
            },
        },
        Phase::FetchAndMerge => match event {
            Event::Transport { message } => failed_with(
                post,
                action,
                GatewayError::Transport { message },
            ),
            Event::Response { status, body, options } => if !is_2xx(status) {
                failed_with(post, action, GatewayError::RequestFailed { status, body })
            } else {
                match options {
                    None => failed_with(
                        post,
                        action,
                        GatewayError::DecodeFailed { message: body },
                    ),
                    Some(items) => {
                        let mc = merged_completion(pre, items@);
                        let mm = merged_model(pre, items@);
                        match mm {
                            Some(mt) => {
                                &&& match post.phase {
                                    Phase::PublishModel { tables } => {
                                        &&& opt_view(tables.completion) == mc
                                        &&& opt_view(tables.model) == mm
                                        &&& opt_wf(tables.completion)
                                        &&& opt_wf(tables.model)
                                    },
                                    _ => false,
                                }
                                &&& match action {
                                    Action::UpdateOption { payload } => payload@
                                        == option_payload_spec("ModelRatio"@, mt),
                                    _ => false,
                                }
                            },
                            None => match mc {
                                Some(ct) => {
                                    &&& match post.phase {
                                        Phase::PublishCompletion { tables, model_publish } => {
                                            &&& opt_view(tables.completion) == mc
                                            &&& tables.model is None
                                            &&& opt_wf(tables.completion)
                                            &&& model_publish is NotAttempted
                                        },
                                        _ => false,
                                    }
                                    &&& match action {
                                        Action::UpdateOption { payload } => payload@
                                            == option_payload_spec("CompletionRatio"@, ct),
                                        _ => false,
                                    }
                                },
                                None => {
                                    &&& match post.phase {
                                        Phase::Done { outcome } => {
                                            &&& outcome.completion is None
                                            &&& outcome.model is None
                                            &&& outcome.completion_publish is NotAttempted
                                            &&& outcome.model_publish is NotAttempted
                                        },
                                        _ => false,
                                    }
                                    &&& action is Finish
                                },
                            },
                        }
                    },
                }
            },
        },
        Phase::PublishModel { tables } => {
            let report = report_of(event);
            match tables.completion {
                Some(ct) => {
                    &&& match post.phase {
                        Phase::PublishCompletion { tables: t2, model_publish } => {
                            &&& opt_view(t2.completion) == opt_view(tables.completion)
                            &&& opt_view(t2.model) == opt_view(tables.model)
                            &&& model_publish == report
                        },
                        _ => false,
                    }
                    &&& match action {
                        Action::UpdateOption { payload } => payload@ == option_payload_spec(
                            "CompletionRatio"@,
                            ct@,
                        ),
                        _ => false,
                    }
                },
                None => {
                    &&& match post.phase {
                        Phase::Done { outcome } => {
                            &&& outcome.completion is None
                            &&& opt_view(outcome.model) == opt_view(tables.model)
                            &&& outcome.completion_publish is NotAttempted
                            &&& outcome.model_publish == report
                        },
                        _ => false,
                    }
                    &&& action is Finish
                },
            }
        },
        Phase::PublishCompletion { tables, model_publish } => {
            let report = report_of(event);
            &&& match post.phase {
                Phase::Done { outcome } => {
                    &&& opt_view(outcome.completion) == opt_view(tables.completion)
                    &&& opt_view(outcome.model) == opt_view(tables.model)
                    &&& outcome.completion_publish == report
                    &&& outcome.model_publish == model_publish
                },
                _ => false,
            }
            &&& action is Finish
        },
        Phase::Done { .. } => false,
        Phase::Failed { .. } => false,
    }
}

/// Both merged tables hold the derived value under both model names.
pub open spec fn both_names_set(tables: Tables, pre: Run) -> bool {
    let src = pre.config.identity.source_name@;
    let gw = pre.config.identity.gateway_name@;
    &&& match tables.completion {
        Some(t) => entry_of(t@, src) == Some(dec_render(pre.completion_value)) && entry_of(
            t@,
            gw,
        ) == Some(dec_render(pre.completion_value)),
        None => true,
    }
    &&& match tables.model {
        Some(t) => entry_of(t@, src) == Some(dec_render(pre.model_value)) && entry_of(t@, gw)
            == Some(dec_render(pre.model_value)),
        None => true,
    }
}

/// Law: after the fetch-and-merge step, each table that was present holds
/// the same derived value under both the source model name and the gateway
/// model name. With [`start_ok`], that value is the exact quotient of the
/// prices.
pub proof fn lemma_merged_tables_set_both_names(pre: Run, event: Event, post: Run, action: Action)
    requires
        pre.phase is FetchAndMerge,
        step_spec(pre, event, post, action),
    ensures
        match post.phase {
            Phase::PublishModel { tables } => both_names_set(tables, pre),
            Phase::PublishCompletion { tables, model_publish } => both_names_set(tables, pre),
            _ => true,
        },
{
    let src = pre.config.identity.source_name@;
    let gw = pre.config.identity.gateway_name@;
    match event {
        Event::Response { status, body, options } => {
            if is_2xx(status) {
                match options {
                    Some(items) => {
                        match scan_options(options_view(items@), "CompletionRatio"@) {
                            Some(t0) => {
                                lemma_merge_sets_both(
                                    t0,
                                    src,
                                    gw,
                                    dec_render(pre.completion_value),
                                );
                            },
                            None => {},
                        }
                        match scan_options(options_view(items@), "ModelRatio"@) {
                            Some(t0) => {
                                lemma_merge_sets_both(t0, src, gw, dec_render(pre.model_value));
                            },
                            None => {},
                        }
                    },
                    None => {},
                }
            }
        },
        Event::Transport { .. } => {},
    }
}

/// Law: when the fetched option list has no usable `CompletionRatio` entry,
/// no table is synthesized for it and the machine never publishes that key:
/// after the fetch step the slot is absent, and an absent slot reaches the
/// outcome as not attempted.
pub proof fn lemma_absent_completion_not_written(pre: Run, event: Event, post: Run, action: Action)
    requires
        pre.phase is FetchAndMerge,
        step_spec(pre, event, post, action),
        match event {
            Event::Response { status, body, options } => is_2xx(status) && match options {
                Some(items) => scan_options(
                    options_view(items@),
                    "CompletionRatio"@,
                ) is None,
                None => false,
            },
            _ => false,
        },
    ensures
        match post.phase {
            Phase::PublishModel { tables } => tables.completion is None,
            Phase::Done { outcome } => outcome.completion is None
                && outcome.completion_publish is NotAttempted,
            _ => false,
        },
{
}

/// What a successful start pins down: the run stands in the first phase with
/// both ratios derived exactly, and the first action creates the channel.
pub open spec fn start_ok(config: RunConfig, run: Run, action: Action) -> bool {
    &&& run.config == config
    &&& run.phase is ProvisionChannel
    &&& is_quotient(run.completion_value, config.prices.output, config.prices.input)
    &&& is_quotient(run.model_value, config.prices.input, config.baseline)
    &&& match action {
        Action::CreateChannel { payload } => payload@ == channel_payload_spec(
            config.identity.source_base_url@,
            config.identity.source_name@,
            config.identity.gateway_name@,
            config.source_token@,
        ),
        _ => false,
    }
}

/// Starts a run: validates the prices, derives both ratios, and yields the
/// channel-creation action. A zero input price or baseline, or a quotient
/// with no finite decimal expansion, is rejected here — before any remote
/// call, so no publish can ever happen for such prices.
pub fn start(config: RunConfig) -> (r: Result<(Run, Action), DomainError>)
    requires
        config.wf(),
    ensures
        match r {
            Ok(p) => start_ok(config, p.0, p.1) && config.prices.input.mantissa != 0
                && config.baseline.mantissa != 0,
            Err(e) => match e {
                DomainError::ZeroInputPrice => config.prices.input.mantissa == 0,
                DomainError::ZeroBaseline => config.prices.input.mantissa != 0
                    && config.baseline.mantissa == 0,
                DomainError::UnrepresentableRatio => config.prices.input.mantissa != 0
                    && config.baseline.mantissa != 0 && (quot_spec(
                    config.prices.output,
                    config.prices.input,
                ) is None || quot_spec(config.prices.input, config.baseline) is None),
            },
        },
{
    if config.prices.input.mantissa == 0 {
        return Err(DomainError::ZeroInputPrice);
    }
    if config.baseline.mantissa == 0 {
        return Err(DomainError::ZeroBaseline);
    }
    let cv = match completion_value(&config.prices) {
        Ok(v) => v,
        Err(e) => {
            return Err(e);
        }
    };
    let mv = match model_value(&config.prices, config.baseline) {
        Ok(v) => v,
        Err(e) => {
            return Err(e);
        }
    };
    let payload = build_channel_payload(&config.identity, &config.source_token);
    Ok(
        (
            Run { config, completion_value: cv, model_value: mv, phase: Phase::ProvisionChannel },
            Action::CreateChannel { payload },
        ),
    )
}

fn report_from(event: Event) -> (r: PublishReport)
    ensures
        r == report_of(event),
{
    match event {
        Event::Transport { message } => PublishReport::PublishFailed {
            error: GatewayError::Transport { message },
        },
        Event::Response { status, body, options: _ } => {
            if 200 <= status && status < 300 {
                PublishReport::Published
            } else {
                PublishReport::PublishFailed {
                    error: GatewayError::RequestFailed { status, body },
                }
            }
        },
    }
}

impl Run {
    /// The run still waits for a response.
    pub open spec fn in_progress(self) -> bool {
        match self.phase {
            Phase::ProvisionChannel => true,
            Phase::FetchAndMerge => true,
            Phase::PublishModel { .. } => true,
            Phase::PublishCompletion { .. } => true,
            Phase::Done { .. } => false,
            Phase::Failed { .. } => false,
        }
    }

    /// Advances the run by one observed event and yields the next action.
    pub fn step(self, event: Event) -> (r: (Run, Action))
        requires
            self.in_progress(),
        ensures
            step_spec(self, event, r.0, r.1),
    {
        let Run { config, completion_value: cv, model_value: mv, phase } = self;
        match phase {
            Phase::ProvisionChannel => match event {
                Event::Transport { message } => (
                    Run {
                        config,
                        completion_value: cv,
                        model_value: mv,
                        phase: Phase::Failed { error: GatewayError::Transport { message } },
                    },
                    Action::Finish,
                ),
                Event::Response { status, body, options: _ } => {
                    if 200 <= status && status < 300 {
                        (
                            Run {
                                config,
                                completion_value: cv,
                                model_value: mv,
                                phase: Phase::FetchAndMerge,
                            },
                            Action::FetchOptions,
                        )
                    } else {
                        (
                            Run {
                                config,
                                completion_value: cv,
                                model_value: mv,
                                phase: Phase::Failed {
                                    error: GatewayError::RequestFailed { status, body },
                                },
                            },
                            Action::Finish,
                        )
                    }
                },
            },
            Phase::FetchAndMerge => match event {
                Event::Transport { message } => (
                    Run {
                        config,
                        completion_value: cv,
                        model_value: mv,
                        phase: Phase::Failed { error: GatewayError::Transport { message } },
                    },
                    Action::Finish,
                ),
                Event::Response { status, body, options } => {
                    if !(200 <= status && status < 300) {
                        (
                            Run {
                                config,
                                completion_value: cv,
                                model_value: mv,
                                phase: Phase::Failed {
                                    error: GatewayError::RequestFailed { status, body },
                                },
                            },
                            Action::Finish,
                        )
                    } else {
                        match options {
                            None => (
                                Run {
                                    config,
                                    completion_value: cv,
                                    model_value: mv,
                                    phase: Phase::Failed {
                                        error: GatewayError::DecodeFailed { message: body },
                                    },
                                },
                                Action::Finish,
                            ),
                            Some(items) => {
                                let (c0, m0) = extract_tables(&items);
                                let completion: Option<RatioTable> = match c0 {
                                    Some(mut t) => {
                                        proof {
                                            lemma_merge_wf(
                                                t@,
                                                config.identity.source_name@,
                                                config.identity.gateway_name@,
                                                dec_render(cv),
                                            );
                                        }
                                        merge_table(
                                            &mut t,
                                            &config.identity.source_name,
                                            &config.identity.gateway_name,
                                            cv,
                                        );
                                        Some(t)
                                    },
                                    None => None,
                                };
                                let model: Option<RatioTable> = match m0 {
                                    Some(mut t) => {
                                        proof {
                                            lemma_merge_wf(
                                                t@,
                                                config.identity.source_name@,
                                                config.identity.gateway_name@,
                                                dec_render(mv),
                                            );
                                        }
                                        merge_table(
                                            &mut t,
                                            &config.identity.source_name,
                                            &config.identity.gateway_name,
                                            mv,
                                        );
                                        Some(t)
                                    },
                                    None => None,
                                };
                                match model {
                                    Some(mt) => {
                                        let payload = build_option_payload("ModelRatio", &mt);
                                        (
                                            Run {
                                                config,
                                                completion_value: cv,
                                                model_value: mv,
                                                phase: Phase::PublishModel {
                                                    tables: Tables { completion, model: Some(mt) },
                                                },
                                            },
                                            Action::UpdateOption { payload },
                                        )
                                    },
                                    None => match completion {
                                        Some(ct) => {
                                            let payload = build_option_payload(
                                                "CompletionRatio",
                                                &ct,
                                            );
                                            (
                                                Run {
                                                    config,
                                                    completion_value: cv,
                                                    model_value: mv,
                                                    phase: Phase::PublishCompletion {
                                                        tables: Tables {
                                                            completion: Some(ct),
                                                            model: None,
                                                        },
                                                        model_publish: PublishReport::NotAttempted,
                                                    },
                                                },
                                                Action::UpdateOption { payload },
                                            )
                                        },
                                        None => (
                                            Run {
                                                config,
                                                completion_value: cv,
                                                model_value: mv,
                                                phase: Phase::Done {
                                                    outcome: RunOutcome {
                                                        completion: None,
                                                        model: None,
                                                        completion_publish:
                                                            PublishReport::NotAttempted,
                                                        model_publish: PublishReport::NotAttempted,
                                                    },
                                                },
                                            },
                                            Action::Finish,
                                        ),
                                    },
                                }
                            },
                        }
                    }
                },
            },
            Phase::PublishModel { tables } => {
                let report = report_from(event);
                let Tables { completion, model } = tables;
                match completion {
                    Some(ct) => {
                        let payload = build_option_payload("CompletionRatio", &ct);
                        (
                            Run {
                                config,
                                completion_value: cv,
                                model_value: mv,
                                phase: Phase::PublishCompletion {
                                    tables: Tables { completion: Some(ct), model },
                                    model_publish: report,
                                },
                            },
                            Action::UpdateOption { payload },
                        )
                    },
                    None => (
                        Run {
                            config,
                            completion_value: cv,
                            model_value: mv,
                            phase: Phase::Done {
                                outcome: RunOutcome {
                                    completion: None,
                                    model,
                                    completion_publish: PublishReport::NotAttempted,
                                    model_publish: report,
                                },
                            },
                        },
                        Action::Finish,
                    ),
                }
            },
            Phase::PublishCompletion { tables, model_publish } => {
                let report = report_from(event);
                let Tables { completion, model } = tables;
                (
                    Run {
                        config,
                        completion_value: cv,
                        model_value: mv,
                        phase: Phase::Done {
                            outcome: RunOutcome {
                                completion,
                                model,
                                completion_publish: report,
                                model_publish,
                            },
                        },
                    },
                    Action::Finish,
                )
            },
            Phase::Done { outcome } => (
                Run { config, completion_value: cv, model_value: mv, phase: Phase::Done { outcome } },
                Action::Finish,
            ),
            Phase::Failed { error } => (
                Run {
                    config,
                    completion_value: cv,
                    model_value: mv,
                    phase: Phase::Failed { error },
                },
                Action::Finish,
            ),
        }
    }
}

} // verus!
