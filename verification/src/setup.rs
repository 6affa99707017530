//! What the host starts with: the neural model and the cabinet impulse response.
//!
//! Loading and building them is the caller's work. The functions here say what to build, and
//! what follows from how it went.
use vstd::prelude::*;

verus! {

/// The sample rate that is taken where none is known.
pub const DEFAULT_SAMPLE_RATE: u32 = 48000;

/// The partition size of the convolution where no buffer size is set.
pub const DEFAULT_PARTITION_SIZE: usize = 256;

/// The architecture of a model, as far as the setup tells them apart.
#[derive(Debug, Clone, Copy, PartialEq, Eq, Structural)]
pub enum ModelKind {
    /// A WaveNet whose size is set at run time, which can be rebuilt slimmer.
    WavenetDyn,
    /// Any other.
    Other,
}

/// A model that the loader has built, in models `M` and gain factors `G`.
pub struct LoadedModel<M, G> {
    pub architecture: String,
    pub sample_rate: u32,
    pub model_l: Option<M>,
    pub model_r: Option<M>,
    pub input_mult_adj: G,
    pub output_mult_adj: G,
    /// The kind of `model_l`.
    pub kind_l: Option<ModelKind>,
    /// A copy of `model_l` for rebuilds, if one was asked for and could be made.
    pub slimmable_copy: Option<M>,
}

/// How loading the initial model went.
pub enum ModelOutcome<M, G> {
    /// No model was asked for.
    NoPath,
    /// The model at a path was loaded.
    Loaded { path: String, loaded: LoadedModel<M, G> },
    /// The loader failed, for a reason.
    Failed { error: String },
}

/// What is sent to the real-time side to put a model into use.
pub struct LoadModel<M, G> {
    pub model_l: Option<M>,
    pub model_r: Option<M>,
    pub input_mult_adj: G,
    pub output_mult_adj: G,
    pub sample_rate: u32,
}

/// Result of loading the initial neural model.
pub struct InitialModelSetup<M> {
    /// The full WaveNet, if the model is one that can be slimmed, for dynamic rebuilds.
    pub full_wavenet_model: Option<M>,
    /// The name of the architecture (such as "WaveNet", "LSTM", "Linear").
    pub architecture: String,
}

/// What follows from how loading the initial model went.
pub enum ModelStart<M, G> {
    /// There is no model: the audio passes through unchanged.
    Bypass { setup: InitialModelSetup<M> },
    /// The model is in use: its name and rate are to be published, and the payload is to
    /// be sent to the real-time side.
    Active {
        setup: InitialModelSetup<M>,
        active_model_name: String,
        active_sample_rate: u32,
        payload: LoadModel<M, G>,
    },
    /// The program is to end with this message.
    Exit { message: String },
}

/// Whether the left model, of the given kind, is to be copied for rebuilds.
pub fn wants_slimmable_copy(kind_l: Option<ModelKind>) -> (r: bool)
    ensures
        r == (kind_l == Some(ModelKind::WavenetDyn)),
{
    match kind_l {
        Some(ModelKind::WavenetDyn) => true,
        _ => false,
    }
}

/// Text with a reason behind it.
fn with_reason(prefix: &str, reason: &String) -> (s: String)
    ensures
        s@ == prefix@ + reason@,
{
    let mut s = prefix.to_owned();
    s.append(reason.as_str());
    s
}

/// Sets up the initial model from how loading it went.
pub fn load_initial_model<M, G>(outcome: ModelOutcome<M, G>) -> (start: ModelStart<M, G>)
    ensures
        match outcome {
            ModelOutcome::NoPath => {
                &&& start matches ModelStart::Bypass { setup }
                &&& setup.full_wavenet_model is None
                &&& setup.architecture@ == Seq::<char>::empty()
            },
            ModelOutcome::Loaded { path, loaded } => {
                &&& start matches ModelStart::Active {
                    setup,
                    active_model_name,
                    active_sample_rate,
                    payload,
                }
                &&& setup.full_wavenet_model == if loaded.kind_l == Some(ModelKind::WavenetDyn) {
                    loaded.slimmable_copy
                } else {
                    None
                }
                &&& setup.architecture@ == loaded.architecture@
                &&& active_model_name@ == path@
                &&& active_sample_rate == loaded.sample_rate
                &&& payload == (LoadModel {
                    model_l: loaded.model_l,
                    model_r: loaded.model_r,
                    input_mult_adj: loaded.input_mult_adj,
                    output_mult_adj: loaded.output_mult_adj,
                    sample_rate: loaded.sample_rate,
                })
            },
            ModelOutcome::Failed { error } => {
                &&& start matches ModelStart::Exit { message }
                &&& message@ == "Model load failed: "@ + error@
            },
        },
{
    match outcome {
        ModelOutcome::NoPath => ModelStart::Bypass {
            setup: InitialModelSetup { full_wavenet_model: None, architecture: String::new() },
        },
        ModelOutcome::Loaded { path, loaded } => {
            let full_wavenet_model = if wants_slimmable_copy(loaded.kind_l) {
                loaded.slimmable_copy
            } else {
                None
            };
            ModelStart::Active {
                setup: InitialModelSetup { full_wavenet_model, architecture: loaded.architecture },
                active_model_name: path,
                active_sample_rate: loaded.sample_rate,
                payload: LoadModel {
                    model_l: loaded.model_l,
                    model_r: loaded.model_r,
                    input_mult_adj: loaded.input_mult_adj,
                    output_mult_adj: loaded.output_mult_adj,
                    sample_rate: loaded.sample_rate,
                },
            }
        },
        ModelOutcome::Failed { error } => ModelStart::Exit {
            message: with_reason("Model load failed: ", &error),
        },
    }
}

/// What the cabinet simulation is built with.
#[derive(Debug, Clone, Copy, PartialEq, Eq, Structural)]
pub struct CabSimPlan {
    /// The rate that the impulse response is brought to.
    pub target_rate: u32,
    /// The partition size of the convolution.
    pub partition_size: usize,
}

/// The plan for a sample rate and a buffer size, either of which may be zero for unknown.
pub open spec fn cabsim_plan(active_rate: u32, buffer_size: u32) -> CabSimPlan {
    CabSimPlan {
        target_rate: if active_rate > 0 {
            active_rate
        } else {
            DEFAULT_SAMPLE_RATE
        },
        partition_size: if buffer_size > 0 {
            buffer_size as usize
        } else {
            DEFAULT_PARTITION_SIZE
        },
    }
}

/// Plans the cabinet simulation, if an impulse response is asked for. The sample rate is
/// that of the active model, zero if there is none; a buffer size of zero leaves the buffer
/// to the host.
pub fn plan_cabsim(path_given: bool, active_rate: u32, buffer_size: u32) -> (plan: Option<
    CabSimPlan,
>)
    ensures
        plan == if path_given {
            Some(cabsim_plan(active_rate, buffer_size))
        } else {
            None
        },
{
    if !path_given {
        return None;
    }
    let target_rate: u32 = if active_rate > 0 {
        active_rate
    } else {
        DEFAULT_SAMPLE_RATE
    };
    let partition_size: usize = if buffer_size > 0 {
        buffer_size as usize
    } else {
        DEFAULT_PARTITION_SIZE
    };
    Some(CabSimPlan { target_rate, partition_size })
}

/// How building the cabinet simulation went, in samples `S` and an adapter `A`.
pub enum CabSimOutcome<S, A> {
    /// No impulse response was asked for.
    NoPath,
    /// The impulse response could not be loaded.
    LoadFailed,
    /// The convolution engine could not be built, for a reason.
    EngineFailed { error: String },
    /// The adapter could not be built, for a reason.
    AdapterFailed { error: String },
    /// All was built.
    Ready { samples: S, adapter: A },
}

/// What follows from how building the cabinet simulation went.
pub struct CabSimStart<S, A> {
    /// The samples of the impulse response, if there is one, or why the host cannot start.
    pub result: Result<Option<S>, String>,
    /// The adapter to send to the real-time side.
    pub dispatch: Option<A>,
}

/// Sets up the cabinet simulation from how building it went. The host goes on without an
/// impulse response that cannot be loaded, but not without an engine for one that can.
pub fn load_initial_cabsim<S, A>(outcome: CabSimOutcome<S, A>) -> (start: CabSimStart<S, A>)
    ensures
        match outcome {
            CabSimOutcome::NoPath => start.result == Ok::<Option<S>, String>(None)
                && start.dispatch is None,
            CabSimOutcome::LoadFailed => start.result == Ok::<Option<S>, String>(None)
                && start.dispatch is None,
            CabSimOutcome::EngineFailed { error } => {
                &&& start.result matches Err(message)
                &&& message@ == "Cab-sim engine init: "@ + error@
                &&& start.dispatch is None
            },
            CabSimOutcome::AdapterFailed { error } => {
                &&& start.result matches Err(message)
                &&& message@ == "Cab-sim adapter init: "@ + error@
                &&& start.dispatch is None
            },
            CabSimOutcome::Ready { samples, adapter } => start.result == Ok::<Option<S>, String>(
                Some(samples),
            ) && start.dispatch == Some(adapter),
        },
        start.dispatch is Some <==> start.result matches Ok(Some(_)),
{
    match outcome {
        CabSimOutcome::NoPath => CabSimStart { result: Ok(None), dispatch: None },
        CabSimOutcome::LoadFailed => CabSimStart { result: Ok(None), dispatch: None },
        CabSimOutcome::EngineFailed { error } => CabSimStart {
            result: Err(with_reason("Cab-sim engine init: ", &error)),
            dispatch: None,
        },
        CabSimOutcome::AdapterFailed { error } => CabSimStart {
            result: Err(with_reason("Cab-sim adapter init: ", &error)),
            dispatch: None,
        },
        CabSimOutcome::Ready { samples, adapter } => CabSimStart {
            result: Ok(Some(samples)),
            dispatch: Some(adapter),
        },
    }
}

/// Whatever is unknown, the cabinet simulation is built for a positive rate and with
/// partitions that are not empty.
pub proof fn law_cabsim_plan_positive(active_rate: u32, buffer_size: u32)
    ensures
        cabsim_plan(active_rate, buffer_size).target_rate > 0,
        cabsim_plan(active_rate, buffer_size).partition_size > 0,
{
}

} // verus!
