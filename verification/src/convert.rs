// The conversion orchestrator: a conversion request is mapped into the
// exact invocation of the external transcription pipeline, and the
// observed fate of that process is mapped into a structured result. The
// two mappings are total functions of the request and the observation
// alone, so repeated and concurrent conversions cannot interfere: nothing
// here reads or writes shared state. Starting the process itself is the
// surrounding shell's task; it reports what it saw as a `ConversionEvent`.

use vstd::prelude::*;
use vstd::string::StringExecFns;

use crate::invocation::Invocation;
use crate::invocation::InvocationModel;
use crate::invocation::strings_view;
use crate::numeral::decimal_of;
use crate::numeral::decimal_string_i32;
use crate::pathname::joined;
use crate::pathname::srt_output_location;
use crate::pathname::with_srt_extension;

verus! {

/// One request to convert an audio file into a subtitle file. Immutable
/// once constructed; owned by the call that handles it.
#[derive(Debug, Clone)]
pub struct ConversionRequest {
    /// Location of the audio file to convert.
    pub input_location: String,
    /// Name of the transcription model profile to use; its meaning is
    /// owned by the external pipeline and it is forwarded verbatim.
    pub model_size: String,
    /// Maximum characters per subtitle line; forwarded verbatim, not
    /// validated here.
    pub max_chars: i32,
    /// Decimal text of the maximum display duration per cue, in seconds.
    /// The caller renders the number; this layer forwards the text
    /// verbatim, so no numeric interpretation happens here.
    pub max_duration_text: String,
}

/// What a conversion request stands for.
pub struct ConversionRequestModel {
    pub input_location: Seq<char>,
    pub model_size: Seq<char>,
    pub max_chars: int,
    pub max_duration_text: Seq<char>,
}

impl View for ConversionRequest {
    type V = ConversionRequestModel;

    open spec fn view(&self) -> ConversionRequestModel {
        ConversionRequestModel {
            input_location: self.input_location@,
            model_size: self.model_size@,
            max_chars: self.max_chars as int,
            max_duration_text: self.max_duration_text@,
        }
    }
}

/// How one run of the external pipeline ended: its exit status and the
/// diagnostic stream captured in full. Transient; consumed to build the
/// final result.
#[derive(Debug, Clone)]
pub struct ProcessOutcome {
    /// Whether the process exited with a success status.
    pub exit_success: bool,
    /// Everything the process wrote to its diagnostic stream.
    pub captured_error_text: String,
}

/// What a process outcome stands for.
pub struct ProcessOutcomeModel {
    pub exit_success: bool,
    pub captured_error_text: Seq<char>,
}

impl View for ProcessOutcome {
    type V = ProcessOutcomeModel;

    open spec fn view(&self) -> ProcessOutcomeModel {
        ProcessOutcomeModel {
            exit_success: self.exit_success,
            captured_error_text: self.captured_error_text@,
        }
    }
}

/// What the shell observed while carrying one conversion out: the bundled
/// entry point could not be located at all, the process could not be
/// started, or it ran to termination with some outcome.
#[derive(Debug, Clone)]
pub enum ConversionEvent {
    /// The application shell could not locate the bundled entry point;
    /// carries the resolution error text.
    ResourceUnresolved { detail: String },
    /// The operating system refused or failed to start the process;
    /// carries the launch error text.
    NotLaunched { detail: String },
    /// The process ran to termination.
    Completed { outcome: ProcessOutcome },
}

/// What a conversion event stands for.
pub enum ConversionEventModel {
    ResourceUnresolved { detail: Seq<char> },
    NotLaunched { detail: Seq<char> },
    Completed { outcome: ProcessOutcomeModel },
}

impl View for ConversionEvent {
    type V = ConversionEventModel;

    open spec fn view(&self) -> ConversionEventModel {
        match self {
            ConversionEvent::ResourceUnresolved { detail } => ConversionEventModel::ResourceUnresolved { detail: detail@ },
            ConversionEvent::NotLaunched { detail } => ConversionEventModel::NotLaunched { detail: detail@ },
            ConversionEvent::Completed { outcome } => ConversionEventModel::Completed { outcome: outcome@ },
        }
    }
}

/// Why a conversion failed. The three kinds are distinct values, so a
/// caller can tell "could not be located" and "could not be started" from
/// "ran and rejected the input".
#[derive(Debug, Clone)]
pub enum ConversionError {
    /// The bundled entry point could not be located.
    ResourceResolutionFailed { detail: String },
    /// The pipeline process could not be started.
    LaunchFailed { detail: String },
    /// The pipeline ran and exited with a non-success status; carries its
    /// diagnostic text verbatim.
    PipelineFailed { diagnostic: String },
}

/// What a conversion error stands for.
pub enum ConversionErrorModel {
    ResourceResolutionFailed { detail: Seq<char> },
    LaunchFailed { detail: Seq<char> },
    PipelineFailed { diagnostic: Seq<char> },
}

impl View for ConversionError {
    type V = ConversionErrorModel;

    open spec fn view(&self) -> ConversionErrorModel {
        match self {
            ConversionError::ResourceResolutionFailed { detail } => ConversionErrorModel::ResourceResolutionFailed { detail: detail@ },
            ConversionError::LaunchFailed { detail } => ConversionErrorModel::LaunchFailed { detail: detail@ },
            ConversionError::PipelineFailed { diagnostic } => ConversionErrorModel::PipelineFailed { diagnostic: diagnostic@ },
        }
    }
}

impl ConversionErrorModel {
    /// The human-readable message of an error: a fixed template naming
    /// the step that failed, with the underlying text embedded verbatim.
    pub open spec fn message(self) -> Seq<char> {
        match self {
            ConversionErrorModel::ResourceResolutionFailed { detail } => "Failed to get resource directory: "@ + detail,
            ConversionErrorModel::LaunchFailed { detail } => "Failed to execute Python script: "@ + detail,
            ConversionErrorModel::PipelineFailed { diagnostic } => "Python script failed: "@ + diagnostic,
        }
    }
}

impl ConversionError {
    /// The human-readable message of this error, for the caller to show
    /// verbatim.
    pub fn message(&self) -> (r: String)
        ensures
            r@ == self@.message(),
    {
        match self {
            ConversionError::ResourceResolutionFailed { detail } => String::from_str(
                "Failed to get resource directory: ",
            ).concat(detail.as_str()),
            ConversionError::LaunchFailed { detail } => String::from_str(
                "Failed to execute Python script: ",
            ).concat(detail.as_str()),
            ConversionError::PipelineFailed { diagnostic } => String::from_str(
                "Python script failed: ",
            ).concat(diagnostic.as_str()),
        }
    }
}

/// The argument vector of the pipeline invocation for a request: the
/// entry point under the resource base, the input location, then the
/// output, model, and limit flags, each followed by its value, in this
/// order and no other.
pub open spec fn spec_conversion_args(
    request: ConversionRequestModel,
    resource_base: Seq<char>,
) -> Seq<Seq<char>> {
    seq![
        joined(resource_base, "audio_to_srt.py"@),
        request.input_location,
        "-o"@,
        with_srt_extension(request.input_location),
        "-m"@,
        request.model_size,
        "--max-chars"@,
        decimal_of(request.max_chars),
        "--max-duration"@,
        request.max_duration_text,
    ]
}

/// The complete pipeline invocation for a request: the interpreter, given
/// the argument vector above.
pub open spec fn spec_conversion_invocation(
    request: ConversionRequestModel,
    resource_base: Seq<char>,
) -> InvocationModel {
    InvocationModel { program: "python3"@, args: spec_conversion_args(request, resource_base) }
}

/// The invocation of the external transcription pipeline for a request.
/// `resource_base` is the directory holding the bundled entry point. The
/// construction is a pure function of the two inputs.
pub fn conversion_invocation(request: &ConversionRequest, resource_base: &str) -> (r: Invocation)
    ensures
        r@ == spec_conversion_invocation(request@, resource_base@),
{
    let entry_point = crate::pathname::join_path(resource_base, "audio_to_srt.py");
    let output_location = srt_output_location(request.input_location.as_str());
    let mut args: Vec<String> = Vec::new();
    args.push(entry_point);
    args.push(request.input_location.clone());
    args.push(String::from_str("-o"));
    args.push(output_location);
    args.push(String::from_str("-m"));
    args.push(request.model_size.clone());
    args.push(String::from_str("--max-chars"));
    args.push(decimal_string_i32(request.max_chars));
    args.push(String::from_str("--max-duration"));
    args.push(request.max_duration_text.clone());
    let r = Invocation { program: String::from_str("python3"), args };
    proof {
        assert(strings_view(r.args@) =~= spec_conversion_args(request@, resource_base@));
    }
    r
}

/// The result a conversion reports for a given event: the derived output
/// location on a successful exit, and otherwise the error kind belonging
/// to the step that failed, carrying that step's text.
pub open spec fn spec_conversion_result(
    request: ConversionRequestModel,
    event: ConversionEventModel,
) -> Result<Seq<char>, ConversionErrorModel> {
    match event {
        ConversionEventModel::ResourceUnresolved { detail } => Err(
            ConversionErrorModel::ResourceResolutionFailed { detail },
        ),
        ConversionEventModel::NotLaunched { detail } => Err(
            ConversionErrorModel::LaunchFailed { detail },
        ),
        ConversionEventModel::Completed { outcome } => if outcome.exit_success {
            Ok(with_srt_extension(request.input_location))
        } else {
            Err(ConversionErrorModel::PipelineFailed { diagnostic: outcome.captured_error_text })
        },
    }
}

/// What a returned conversion result stands for.
pub open spec fn conversion_result_view(
    r: Result<String, ConversionError>,
) -> Result<Seq<char>, ConversionErrorModel> {
    match r {
        Ok(location) => Ok(location@),
        Err(e) => Err(e@),
    }
}

/// The terminal result of one conversion, from the request and what the
/// shell observed. Success is returned exactly when the pipeline ran and
/// exited successfully, and then carries the output location derived from
/// the input location; whether a file actually stands there is the
/// external pipeline's contract, not checked here.
pub fn conversion_result(request: &ConversionRequest, event: ConversionEvent) -> (r: Result<
    String,
    ConversionError,
>)
    ensures
        conversion_result_view(r) == spec_conversion_result(request@, event@),
{
    match event {
        ConversionEvent::ResourceUnresolved { detail } => Err(
            ConversionError::ResourceResolutionFailed { detail },
        ),
        ConversionEvent::NotLaunched { detail } => Err(ConversionError::LaunchFailed { detail }),
        ConversionEvent::Completed { outcome } => {
            if outcome.exit_success {
                Ok(srt_output_location(request.input_location.as_str()))
            } else {
                Err(
                    ConversionError::PipelineFailed {
                        diagnostic: outcome.captured_error_text,
                    },
                )
            }
        },
    }
}

/// Law: a successful conversion always carries the output location that
/// the input location alone determines — the input with its extension
/// replaced by ".srt" — whatever the event and the other request fields.
pub proof fn lemma_output_location_from_input_alone(
    request: ConversionRequestModel,
    event: ConversionEventModel,
)
    ensures
        spec_conversion_result(request, event) is Ok ==> spec_conversion_result(request, event)
            == Ok::<Seq<char>, ConversionErrorModel>(with_srt_extension(request.input_location)),
{
}

/// Law: the output location in the argument vector does not depend on the
/// model size or the two formatting limits — two requests for the same
/// input location hand the pipeline the same output target.
pub proof fn lemma_output_location_ignores_tuning(
    a: ConversionRequestModel,
    b: ConversionRequestModel,
    resource_base: Seq<char>,
)
    requires
        a.input_location == b.input_location,
    ensures
        spec_conversion_args(a, resource_base)[3] == spec_conversion_args(b, resource_base)[3],
{
}

/// Law: argument-vector construction is pure and order-stable — any two
/// invocations built for the same request and resource base are
/// identical, program and argument order included.
pub proof fn lemma_invocation_order_stable(
    request: ConversionRequestModel,
    resource_base: Seq<char>,
    first: InvocationModel,
    second: InvocationModel,
)
    requires
        first == spec_conversion_invocation(request, resource_base),
        second == spec_conversion_invocation(request, resource_base),
    ensures
        first == second,
{
}

/// Law: when the pipeline exits with a non-success status, the conversion
/// is a failure, never a success, of the pipeline kind, and its message
/// embeds the captured diagnostic text verbatim as its tail.
pub proof fn lemma_pipeline_failure_reports_diagnostic(
    request: ConversionRequestModel,
    outcome: ProcessOutcomeModel,
)
    requires
        !outcome.exit_success,
    ensures
        ({
            let r = spec_conversion_result(request, ConversionEventModel::Completed { outcome });
            let e = ConversionErrorModel::PipelineFailed {
                diagnostic: outcome.captured_error_text,
            };
            &&& !(r is Ok)
            &&& r == Err::<Seq<char>, ConversionErrorModel>(e)
            &&& e.message() == "Python script failed: "@ + outcome.captured_error_text
            &&& e.message().subrange(
                "Python script failed: "@.len() as int,
                e.message().len() as int,
            ) == outcome.captured_error_text
        }),
{
    let e = ConversionErrorModel::PipelineFailed { diagnostic: outcome.captured_error_text };
    assert(e.message().subrange("Python script failed: "@.len() as int, e.message().len() as int)
        =~= outcome.captured_error_text);
}

/// Law: a process that could not be started and a process that ran and
/// was rejected yield failures of distinct kinds, whatever their texts,
/// so a caller can tell "couldn't start" from "ran and rejected".
pub proof fn lemma_launch_failure_distinct_from_pipeline_failure(
    request: ConversionRequestModel,
    launch_detail: Seq<char>,
    outcome: ProcessOutcomeModel,
)
    requires
        !outcome.exit_success,
    ensures
        ({
            let not_launched = spec_conversion_result(
                request,
                ConversionEventModel::NotLaunched { detail: launch_detail },
            );
            let rejected = spec_conversion_result(
                request,
                ConversionEventModel::Completed { outcome },
            );
            &&& not_launched == Err::<Seq<char>, ConversionErrorModel>(
                ConversionErrorModel::LaunchFailed { detail: launch_detail },
            )
            &&& rejected == Err::<Seq<char>, ConversionErrorModel>(
                ConversionErrorModel::PipelineFailed { diagnostic: outcome.captured_error_text },
            )
            &&& not_launched != rejected
        }),
{
}

/// Law: conversions share no state, so two calls, however interleaved,
/// cannot interfere — each one's output location and reported diagnostics
/// are fully determined by its own request and its own process event.
pub proof fn lemma_concurrent_conversions_independent(
    a: ConversionRequestModel,
    event_a: ConversionEventModel,
    b: ConversionRequestModel,
    event_b: ConversionEventModel,
)
    ensures
        spec_conversion_result(a, event_a) is Ok ==> spec_conversion_result(a, event_a)
            == Ok::<Seq<char>, ConversionErrorModel>(with_srt_extension(a.input_location)),
        spec_conversion_result(b, event_b) is Ok ==> spec_conversion_result(b, event_b)
            == Ok::<Seq<char>, ConversionErrorModel>(with_srt_extension(b.input_location)),
        event_a matches ConversionEventModel::Completed { outcome } ==> (!outcome.exit_success
            ==> spec_conversion_result(a, event_a) == Err::<Seq<char>, ConversionErrorModel>(
            (ConversionErrorModel::PipelineFailed { diagnostic: outcome.captured_error_text }),
        )),
        event_b matches ConversionEventModel::Completed { outcome } ==> (!outcome.exit_success
            ==> spec_conversion_result(b, event_b) == Err::<Seq<char>, ConversionErrorModel>(
            (ConversionErrorModel::PipelineFailed { diagnostic: outcome.captured_error_text }),
        )),
{
}

} // verus!
