//! The assistant pipeline: the state machine of one run.
//!
//! A run takes one audio upload through transcription, the language model's
//! choice of what to do, the chosen work, and the reply. Every piece of work
//! that waits on somebody else (the upload, the services, the disk) is done by
//! the caller: the run names the work as an [`Action`], the caller performs it
//! and hands back what came of it as an [`Outcome`], and the run answers with
//! the events to publish and the next action.
//!
//! ```text
//! Upload -> Transcription -> Thinking
//! Thinking -- stop -------> Speech -> SpeechStore -> Finished
//! Thinking -- tool call --> Arguments -> Answer -> Speech -> ...
//!                                     -> Code -> Finished
//!                                     -> Image -> ImageStore -> Finished
//! any running phase -- failure --> Finished
//! ```
//!
//! The signal that the upload is being read is published when the run begins,
//! before the upload is looked at. A request that holds no field, or whose
//! first field is not `audio`, is at fault itself: the run ends as
//! [`Ending::Rejected`] and publishes nothing more, not even an error. Every
//! other way in which a run can end publishes exactly one of `Complete` and
//! `Error`, as its last event.
//!
//! What a step does is defined by [`step`], a function on mathematical values;
//! [`Run::advance_with`] computes it.

use vstd::prelude::*;
use std::path::PathBuf;
use crate::event::{AssistantEvent, AssistantStep, EventView, ReplyView};
use crate::event::{ChatInputEvent, ChatInputSkeletonEvent, ChatReplyData, ChatReplySkeletonEvent};
use crate::event::{DrawImageResult, SpeechResult, WriteCodeResult};
use crate::event::{assistant_avatar, assistant_name, user_avatar, user_name, views};
use crate::event::{complete, error, in_audio_upload, in_transcription, processing, reply};
use crate::outside::{base64_decoded, is_identifier, markdown_html, path_text};
use crate::outside::{decode_base64, fresh_id, local_timestamp, markdown_to_html};
use crate::paths::{audio_path, audio_url, image_path, image_url};
use crate::paths::{audio_path_text, audio_url_text, image_path_text, image_url_text};
use crate::text::same_text;
use crate::tools::{AssistantTool, ChatRequest, ChatRequestView};
use crate::tools::{answer_prompt, code_prompt, plain_request_view, tool_request_view};
use crate::tools::{answer_request, code_request, tool_completion_request};
use crate::tools::{transcription_hint, user_speaker};

verus! {

/// Why the language model stopped writing.
#[derive(Clone, Copy, Debug, PartialEq, Eq, Structural)]
pub enum FinishReason {
    /// The message is complete: its content is the answer.
    Stop,
    /// The model asks for a tool to be called.
    ToolCalls,
    /// Any other reason.
    Other,
}

/// How a run ended.
#[derive(Clone, Copy, Debug, PartialEq, Eq, Structural)]
pub enum Ending {
    /// The reply was delivered; `Complete` was published.
    Completed,
    /// Some stage failed; `Error` was published.
    Failed,
    /// The request carried no audio; nothing was published for it.
    Rejected,
}

/// A tool call that the language model asks for: the tool's name and its
/// arguments as JSON text.
#[derive(Clone, Debug, PartialEq, Eq)]
pub struct ToolCall {
    pub name: String,
    pub arguments: String,
}

/// One of the completions that the language model offers.
#[derive(Clone, Debug, PartialEq, Eq)]
pub struct Choice {
    pub finish_reason: FinishReason,
    pub content: Option<String>,
    pub tool_calls: Vec<ToolCall>,
}

/// An image as the image service returns it.
#[derive(Clone, Debug, PartialEq, Eq)]
pub struct GeneratedImage {
    pub b64_json: Option<String>,
    pub revised_prompt: String,
}

/// What came of the work that a run asked for.
#[derive(Clone, Debug, PartialEq, Eq)]
pub enum Outcome {
    /// The request holds no field.
    NoUpload,
    /// The first field of the request: its name, if it has one, and its bytes.
    Upload { name: Option<String>, data: Vec<u8> },
    /// The transcript of the audio.
    Transcript(String),
    /// The completions that the language model offers.
    Choices(Vec<Choice>),
    /// The prompt decoded from a tool call's arguments.
    Arguments(String),
    /// The synthesized speech.
    Audio(Vec<u8>),
    /// The images that the image service returned.
    Images(Vec<GeneratedImage>),
    /// The bytes were written.
    Stored,
    /// The work failed; the text describes the failure.
    Failure(String),
}

/// The work that a run asks its caller to do next.
#[derive(Debug, PartialEq, Eq)]
pub enum Action {
    /// Read the first field of the upload.
    ReadUpload,
    /// Transcribe the audio, with a hint for the transcriber.
    Transcribe { audio: Vec<u8>, hint: String },
    /// Ask the language model what to do, offering the request's tools, and
    /// hand back its choices.
    Decide(ChatRequest),
    /// Decode the JSON arguments of a call of `tool` into its prompt.
    DecodeArguments { tool: AssistantTool, json: String },
    /// Ask the language model for a plain completion.
    Chat(ChatRequest),
    /// Turn the text into speech.
    Synthesize { text: String },
    /// Draw an image from the prompt, returned in base64.
    DrawImage { prompt: String },
    /// Write the bytes to the path, creating its directory if need be.
    Store { path: PathBuf, bytes: Vec<u8> },
    /// Nothing is left to do: answer the request according to the ending.
    Respond(Ending),
}

/// A tool call as a mathematical value.
pub struct ToolCallView {
    pub name: Seq<char>,
    pub arguments: Seq<char>,
}

/// A completion as a mathematical value.
pub struct ChoiceView {
    pub finish_reason: FinishReason,
    pub content: Option<Seq<char>>,
    pub tool_calls: Seq<ToolCallView>,
}

/// A returned image as a mathematical value.
pub struct GeneratedImageView {
    pub b64_json: Option<Seq<char>>,
    pub revised_prompt: Seq<char>,
}

/// An outcome as a mathematical value.
pub enum OutcomeView {
    NoUpload,
    Upload { name: Option<Seq<char>>, data: Seq<u8> },
    Transcript(Seq<char>),
    Choices(Seq<ChoiceView>),
    Arguments(Seq<char>),
    Audio(Seq<u8>),
    Images(Seq<GeneratedImageView>),
    Stored,
    Failure(Seq<char>),
}

/// An action as a mathematical value. A path is given by its text.
pub enum ActionView {
    ReadUpload,
    Transcribe { audio: Seq<u8>, hint: Seq<char> },
    Decide(ChatRequestView),
    DecodeArguments { tool: AssistantTool, json: Seq<char> },
    Chat(ChatRequestView),
    Synthesize { text: Seq<char> },
    DrawImage { prompt: Seq<char> },
    Store { path: Seq<char>, bytes: Seq<u8> },
    Respond(Ending),
}

/// Where a run stands: the work it waits for, with what it keeps for later.
pub enum PhaseView {
    /// Waiting for the upload.
    Upload,
    /// Waiting for the transcript.
    Transcription,
    /// Waiting for the language model's choice.
    Thinking,
    /// Waiting for the decoded arguments of a call of the tool.
    Arguments(AssistantTool),
    /// Waiting for the language model's answer.
    Answer,
    /// Waiting for the language model's code.
    Code,
    /// Waiting for the speech that says `text`.
    Speech { text: Seq<char> },
    /// Waiting for the speech to be written; it will be served at `url`.
    SpeechStore { text: Seq<char>, url: Seq<char> },
    /// Waiting for the image.
    Image,
    /// Waiting for the image to be written; it will be served at `url`.
    ImageStore { url: Seq<char>, prompt: Seq<char> },
    /// The run is over.
    Finished(Ending),
}

/// A run as a mathematical value: its device, its turn, and where it stands.
pub struct RunView {
    pub device: Seq<char>,
    pub turn: Seq<char>,
    pub phase: PhaseView,
}

/// One step of a run as a mathematical value: the run after the step, the
/// events to publish, in order, and the work to do next.
pub struct StepView {
    pub run: RunView,
    pub events: Seq<EventView>,
    pub action: ActionView,
}

/// The view of an optional text.
pub open spec fn text_view(text: Option<String>) -> Option<Seq<char>> {
    match text {
        Some(t) => Some(t@),
        None => None,
    }
}

impl View for ToolCall {
    type V = ToolCallView;

    open spec fn view(&self) -> ToolCallView {
        ToolCallView { name: self.name@, arguments: self.arguments@ }
    }
}

impl View for Choice {
    type V = ChoiceView;

    open spec fn view(&self) -> ChoiceView {
        ChoiceView {
            finish_reason: self.finish_reason,
            content: text_view(self.content),
            tool_calls: Seq::new(self.tool_calls@.len(), |i: int| self.tool_calls@[i]@),
        }
    }
}

impl View for GeneratedImage {
    type V = GeneratedImageView;

    open spec fn view(&self) -> GeneratedImageView {
        GeneratedImageView {
            b64_json: text_view(self.b64_json),
            revised_prompt: self.revised_prompt@,
        }
    }
}

impl View for Outcome {
    type V = OutcomeView;

    open spec fn view(&self) -> OutcomeView {
        match self {
            Outcome::NoUpload => OutcomeView::NoUpload,
            Outcome::Upload { name, data } => OutcomeView::Upload {
                name: text_view(*name),
                data: data@,
            },
            Outcome::Transcript(text) => OutcomeView::Transcript(text@),
            Outcome::Choices(choices) => OutcomeView::Choices(
                Seq::new(choices@.len(), |i: int| choices@[i]@),
            ),
            Outcome::Arguments(prompt) => OutcomeView::Arguments(prompt@),
            Outcome::Audio(bytes) => OutcomeView::Audio(bytes@),
            Outcome::Images(images) => OutcomeView::Images(
                Seq::new(images@.len(), |i: int| images@[i]@),
            ),
            Outcome::Stored => OutcomeView::Stored,
            Outcome::Failure(message) => OutcomeView::Failure(message@),
        }
    }
}

impl View for Action {
    type V = ActionView;

    open spec fn view(&self) -> ActionView {
        match self {
            Action::ReadUpload => ActionView::ReadUpload,
            Action::Transcribe { audio, hint } => ActionView::Transcribe {
                audio: audio@,
                hint: hint@,
            },
            Action::Decide(request) => ActionView::Decide(request@),
            Action::DecodeArguments { tool, json } => ActionView::DecodeArguments {
                tool: *tool,
                json: json@,
            },
            Action::Chat(request) => ActionView::Chat(request@),
            Action::Synthesize { text } => ActionView::Synthesize { text: text@ },
            Action::DrawImage { prompt } => ActionView::DrawImage { prompt: prompt@ },
            Action::Store { path, bytes } => ActionView::Store {
                path: path_text(*path),
                bytes: bytes@,
            },
            Action::Respond(ending) => ActionView::Respond(*ending),
        }
    }
}

/// The name that the upload's field must have.
pub open spec fn audio_field() -> Seq<char> {
    "audio"@
}

/// The failure of a language model that offers no completion.
pub open spec fn no_choice_text() -> Seq<char> {
    "expect at least one choice"@
}

/// The failure of a completion without content.
pub open spec fn no_content_text() -> Seq<char> {
    "expect content but no content available"@
}

/// The failure of a request for a tool that names no call.
pub open spec fn no_tool_call_text() -> Seq<char> {
    "expect at least one tool call"@
}

/// The failure of an image service that returns no image.
pub open spec fn no_image_text() -> Seq<char> {
    "expect at least one data"@
}

/// The failure of a returned image without base64 data.
pub open spec fn no_image_data_text() -> Seq<char> {
    "expect image data in base64"@
}

/// The failure of a returned image whose data is not base64.
pub open spec fn bad_image_data_text() -> Seq<char> {
    "image data is not valid base64"@
}

/// The failure of an outcome that is not the one the run waits for.
pub open spec fn unexpected_text() -> Seq<char> {
    "unexpected outcome for this stage"@
}

impl PhaseView {
    /// Whether the run is over.
    pub open spec fn is_finished(self) -> bool {
        self is Finished
    }

    /// An upper bound on the number of steps that a run in this phase can
    /// still take before it is over.
    pub open spec fn steps_left(self) -> nat {
        match self {
            PhaseView::Upload => 7,
            PhaseView::Transcription => 6,
            PhaseView::Thinking => 5,
            PhaseView::Arguments(_) => 4,
            PhaseView::Answer => 3,
            PhaseView::Code => 1,
            PhaseView::Speech { .. } => 2,
            PhaseView::SpeechStore { .. } => 1,
            PhaseView::Image => 2,
            PhaseView::ImageStore { .. } => 1,
            PhaseView::Finished(_) => 0,
        }
    }
}

/// The step that takes `run` to `phase`, publishes `events` and asks for
/// `action`.
pub open spec fn step_to(
    run: RunView,
    phase: PhaseView,
    events: Seq<EventView>,
    action: ActionView,
) -> StepView {
    StepView { run: RunView { device: run.device, turn: run.turn, phase }, events, action }
}

/// The step of a run that is over: nothing is published, and the answer to
/// the request stays what it was.
pub open spec fn idle(run: RunView, ending: Ending) -> StepView {
    step_to(run, PhaseView::Finished(ending), Seq::empty(), ActionView::Respond(ending))
}

/// The step that rejects the request: nothing is published.
pub open spec fn reject(run: RunView) -> StepView {
    idle(run, Ending::Rejected)
}

/// The step that fails the run: one `Error` with the failure's description.
pub open spec fn fail(run: RunView, message: Seq<char>) -> StepView {
    step_to(
        run,
        PhaseView::Finished(Ending::Failed),
        seq![EventView::Error(message)],
        ActionView::Respond(Ending::Failed),
    )
}

/// The step that delivers the reply and completes the run.
pub open spec fn finish(run: RunView, data: ReplyView) -> StepView {
    step_to(
        run,
        PhaseView::Finished(Ending::Completed),
        seq![EventView::Reply { id: run.turn, data }, EventView::Complete],
        ActionView::Respond(Ending::Completed),
    )
}

/// The step that starts to say `text`: the text is published at once, with an
/// empty address, and the speech is asked for.
pub open spec fn speak(run: RunView, text: Seq<char>) -> StepView {
    step_to(
        run,
        PhaseView::Speech { text },
        seq![
            EventView::Processing(AssistantStep::Speech),
            EventView::Reply {
                id: run.turn,
                data: ReplyView::Speech { text, url: Seq::empty() },
            },
        ],
        ActionView::Synthesize { text },
    )
}

/// The step on an outcome that the run does not wait for: a run that is over
/// stays as it is, and a run under way fails.
pub open spec fn misplaced(run: RunView) -> StepView {
    match run.phase {
        PhaseView::Finished(ending) => idle(run, ending),
        _ => fail(run, unexpected_text()),
    }
}

/// The first step of the run of turn `turn` on device `device`: the signal
/// that the upload is being read, and the request to read it.
pub open spec fn first_step(device: Seq<char>, turn: Seq<char>) -> StepView {
    StepView {
        run: RunView { device, turn, phase: PhaseView::Upload },
        events: seq![EventView::Processing(AssistantStep::UploadAudio)],
        action: ActionView::ReadUpload,
    }
}

/// The step on the upload: the field `audio` goes to transcription; a request
/// without a field, or whose first field is not `audio`, is rejected.
pub open spec fn accept_upload(run: RunView, outcome: OutcomeView) -> StepView {
    match outcome {
        OutcomeView::Upload { name, data } => if name == Some(audio_field()) {
            step_to(
                run,
                PhaseView::Transcription,
                seq![EventView::Processing(AssistantStep::Transcription)],
                ActionView::Transcribe { audio: data, hint: transcription_hint() },
            )
        } else {
            reject(run)
        },
        OutcomeView::NoUpload => reject(run),
        _ => misplaced(run),
    }
}

/// The step on the transcript: the user's turn is published, placeholder
/// first, then the placeholder of the reply, and the language model is asked
/// what to do.
pub open spec fn transcribed(run: RunView, text: Seq<char>, now: Seq<char>) -> StepView {
    step_to(
        run,
        PhaseView::Thinking,
        seq![
            EventView::InputSkeleton {
                id: run.turn,
                datetime: now,
                avatar: user_avatar(),
                name: user_name(),
            },
            EventView::Input { id: run.turn, content: text },
            EventView::Processing(AssistantStep::Thinking),
            EventView::ReplySkeleton {
                id: run.turn,
                avatar: assistant_avatar(),
                name: assistant_name(),
            },
        ],
        ActionView::Decide(tool_request_view(text, user_speaker())),
    )
}

/// The step on the language model's choice. Only the first completion counts,
/// and of its tool calls only the first. A tool call goes to the tool it
/// names, and to `Answer` where it names none that is known.
pub open spec fn decided(run: RunView, choices: Seq<ChoiceView>) -> StepView {
    if choices.len() == 0 {
        fail(run, no_choice_text())
    } else {
        let choice = choices[0];
        match choice.finish_reason {
            FinishReason::Stop => match choice.content {
                Some(text) => speak(run, text),
                None => fail(run, no_content_text()),
            },
            FinishReason::ToolCalls => if choice.tool_calls.len() == 0 {
                fail(run, no_tool_call_text())
            } else {
                let call = choice.tool_calls[0];
                let tool = AssistantTool::resolve_text(call.name);
                step_to(
                    run,
                    PhaseView::Arguments(tool),
                    Seq::empty(),
                    ActionView::DecodeArguments { tool, json: call.arguments },
                )
            },
            FinishReason::Other => step_to(
                run,
                PhaseView::Finished(Ending::Completed),
                seq![EventView::Complete],
                ActionView::Respond(Ending::Completed),
            ),
        }
    }
}

/// The step on the decoded arguments of a call of `tool`.
pub open spec fn dispatched(run: RunView, tool: AssistantTool, prompt: Seq<char>) -> StepView {
    match tool {
        AssistantTool::DrawImage => step_to(
            run,
            PhaseView::Image,
            seq![EventView::Processing(AssistantStep::DrawImage)],
            ActionView::DrawImage { prompt },
        ),
        AssistantTool::WriteCode => step_to(
            run,
            PhaseView::Code,
            seq![EventView::Processing(AssistantStep::WriteCode)],
            ActionView::Chat(plain_request_view(code_prompt(), prompt)),
        ),
        AssistantTool::Answer => step_to(
            run,
            PhaseView::Answer,
            seq![EventView::Processing(AssistantStep::ChatCompletion)],
            ActionView::Chat(plain_request_view(answer_prompt(), prompt)),
        ),
    }
}

/// What a plain completion says: the content of the last completion offered,
/// or the description of what is missing.
pub open spec fn completion_text(choices: Seq<ChoiceView>) -> Result<Seq<char>, Seq<char>> {
    if choices.len() == 0 {
        Err(no_choice_text())
    } else {
        match choices.last().content {
            Some(text) => Ok(text),
            None => Err(no_content_text()),
        }
    }
}

/// The base64 text of the image to keep: that of the last image returned, or
/// the description of what is missing.
pub open spec fn image_text(images: Seq<GeneratedImageView>) -> Result<Seq<char>, Seq<char>> {
    if images.len() == 0 {
        Err(no_image_text())
    } else {
        match images.last().b64_json {
            Some(text) => Ok(text),
            None => Err(no_image_data_text()),
        }
    }
}

/// The step of a run that waits for code, once the code's markup is there.
/// In any other phase the markup is misplaced.
pub open spec fn code_rendered(run: RunView, html: Seq<char>) -> StepView {
    if run.phase is Code {
        finish(run, ReplyView::Markdown { content: html })
    } else {
        misplaced(run)
    }
}

/// The step of a run that waits for an image, once its data is decoded:
/// the bytes are stored under the name `fresh`. In any other phase the data
/// is misplaced.
pub open spec fn image_decoded(
    run: RunView,
    decoded: Option<Seq<u8>>,
    prompt: Seq<char>,
    fresh: Seq<char>,
) -> StepView {
    if run.phase is Image {
        match decoded {
            Some(bytes) => step_to(
                run,
                PhaseView::ImageStore { url: image_url_text(run.device, fresh), prompt },
                Seq::empty(),
                ActionView::Store { path: image_path_text(run.device, fresh), bytes },
            ),
            None => fail(run, bad_image_data_text()),
        }
    } else {
        misplaced(run)
    }
}

/// The step of a run under way on an outcome that is no failure.
pub open spec fn proceed(
    run: RunView,
    outcome: OutcomeView,
    now: Seq<char>,
    fresh: Seq<char>,
) -> StepView {
    match run.phase {
        PhaseView::Upload => accept_upload(run, outcome),
        PhaseView::Transcription => match outcome {
            OutcomeView::Transcript(text) => transcribed(run, text, now),
            _ => misplaced(run),
        },
        PhaseView::Thinking => match outcome {
            OutcomeView::Choices(choices) => decided(run, choices),
            _ => misplaced(run),
        },
        PhaseView::Arguments(tool) => match outcome {
            OutcomeView::Arguments(prompt) => dispatched(run, tool, prompt),
            _ => misplaced(run),
        },
        PhaseView::Answer => match outcome {
            OutcomeView::Choices(choices) => match completion_text(choices) {
                Ok(text) => speak(run, text),
                Err(message) => fail(run, message),
            },
            _ => misplaced(run),
        },
        PhaseView::Code => match outcome {
            OutcomeView::Choices(choices) => match completion_text(choices) {
                Ok(markdown) => code_rendered(run, markdown_html(markdown)),
                Err(message) => fail(run, message),
            },
            _ => misplaced(run),
        },
        PhaseView::Speech { text } => match outcome {
            OutcomeView::Audio(bytes) => step_to(
                run,
                PhaseView::SpeechStore { text, url: audio_url_text(run.device, fresh) },
                Seq::empty(),
                ActionView::Store { path: audio_path_text(run.device, fresh), bytes },
            ),
            _ => misplaced(run),
        },
        PhaseView::SpeechStore { text, url } => match outcome {
            OutcomeView::Stored => finish(run, ReplyView::Speech { text, url }),
            _ => misplaced(run),
        },
        PhaseView::Image => match outcome {
            OutcomeView::Images(images) => match image_text(images) {
                Ok(text) => image_decoded(
                    run,
                    base64_decoded(text),
                    images.last().revised_prompt,
                    fresh,
                ),
                Err(message) => fail(run, message),
            },
            _ => misplaced(run),
        },
        PhaseView::ImageStore { url, prompt } => match outcome {
            OutcomeView::Stored => finish(run, ReplyView::Image { url, prompt }),
            _ => misplaced(run),
        },
        _ => misplaced(run),
    }
}

/// One step of a run: what `run` does on `outcome`.
///
/// `now` is the time that the step stamps the user's turn with, and `fresh`
/// the name under which it stores a file; a step that does neither ignores
/// them. A run that is over stays as it is. A run under way fails on a
/// failure, with the failure's description, and on an outcome that it does
/// not wait for; on the outcome it waits for, it does what its phase says.
pub open spec fn step(
    run: RunView,
    outcome: OutcomeView,
    now: Seq<char>,
    fresh: Seq<char>,
) -> StepView {
    match run.phase {
        PhaseView::Finished(ending) => idle(run, ending),
        _ => match outcome {
            OutcomeView::Failure(message) => fail(run, message),
            _ => proceed(run, outcome, now, fresh),
        },
    }
}

/// Where a run stands.
#[derive(Debug)]
enum Phase {
    Upload,
    Transcription,
    Thinking,
    Arguments(AssistantTool),
    Answer,
    Code,
    Speech { text: String },
    SpeechStore { text: String, url: String },
    Image,
    ImageStore { url: String, prompt: String },
    Finished(Ending),
}

impl View for Phase {
    type V = PhaseView;

    closed spec fn view(&self) -> PhaseView {
        match self {
            Phase::Upload => PhaseView::Upload,
            Phase::Transcription => PhaseView::Transcription,
            Phase::Thinking => PhaseView::Thinking,
            Phase::Arguments(tool) => PhaseView::Arguments(*tool),
            Phase::Answer => PhaseView::Answer,
            Phase::Code => PhaseView::Code,
            Phase::Speech { text } => PhaseView::Speech { text: text@ },
            Phase::SpeechStore { text, url } => PhaseView::SpeechStore { text: text@, url: url@ },
            Phase::Image => PhaseView::Image,
            Phase::ImageStore { url, prompt } => PhaseView::ImageStore {
                url: url@,
                prompt: prompt@,
            },
            Phase::Finished(ending) => PhaseView::Finished(*ending),
        }
    }
}

/// One assistant run.
#[derive(Debug)]
pub struct Run {
    device_id: String,
    turn_id: String,
    phase: Phase,
}

impl View for Run {
    type V = RunView;

    closed spec fn view(&self) -> RunView {
        RunView { device: self.device_id@, turn: self.turn_id@, phase: self.phase@ }
    }
}

/// What a step hands to the caller: the events to publish, in order, and the
/// work to do next.
#[derive(Debug, PartialEq, Eq)]
pub struct Step {
    pub events: Vec<AssistantEvent>,
    pub action: Action,
}

/// A step as a mathematical value: the run after it, and what it hands out.
pub open spec fn step_view(next: (Run, Step)) -> StepView {
    StepView { run: next.0@, events: views(next.1.events@), action: next.1.action@ }
}

/// No event.
fn no_event() -> (events: Vec<AssistantEvent>)
    ensures
        views(events@) == Seq::<EventView>::empty(),
{
    let events: Vec<AssistantEvent> = Vec::new();
    assert(views(events@) =~= Seq::<EventView>::empty());
    events
}

/// The list of one event.
fn one_event(first: AssistantEvent) -> (events: Vec<AssistantEvent>)
    ensures
        views(events@) == seq![first@],
{
    let mut events: Vec<AssistantEvent> = Vec::new();
    events.push(first);
    assert(views(events@) =~= seq![first@]);
    events
}

/// The list of two events.
fn two_events(first: AssistantEvent, second: AssistantEvent) -> (events: Vec<AssistantEvent>)
    ensures
        views(events@) == seq![first@, second@],
{
    let mut events: Vec<AssistantEvent> = Vec::new();
    events.push(first);
    events.push(second);
    assert(views(events@) =~= seq![first@, second@]);
    events
}

/// The step that leaves the run of `turn_id` on `device_id` in `phase`.
fn step_into(
    device_id: String,
    turn_id: String,
    phase: Phase,
    events: Vec<AssistantEvent>,
    action: Action,
) -> (next: (Run, Step))
    ensures
        step_view(next) == (StepView {
            run: RunView { device: device_id@, turn: turn_id@, phase: phase@ },
            events: views(events@),
            action: action@,
        }),
{
    (Run { device_id, turn_id, phase }, Step { events, action })
}

/// The step of a run that is over.
fn idle_step(device_id: String, turn_id: String, ending: Ending) -> (next: (Run, Step))
    ensures
        forall|phase: PhaseView|
            step_view(next) == idle(
                RunView { device: device_id@, turn: turn_id@, phase },
                ending,
            ),
{
    step_into(device_id, turn_id, Phase::Finished(ending), no_event(), Action::Respond(ending))
}

/// The step that fails the run with `message`.
fn fail_step(device_id: String, turn_id: String, message: &str) -> (next: (Run, Step))
    ensures
        forall|phase: PhaseView|
            step_view(next) == fail(
                RunView { device: device_id@, turn: turn_id@, phase },
                message@,
            ),
{
    step_into(
        device_id,
        turn_id,
        Phase::Finished(Ending::Failed),
        one_event(error(message)),
        Action::Respond(Ending::Failed),
    )
}

/// The step that delivers `data` and completes the run.
fn finish_step(device_id: String, turn_id: String, data: ChatReplyData) -> (next: (Run, Step))
    ensures
        forall|phase: PhaseView|
            step_view(next) == finish(
                RunView { device: device_id@, turn: turn_id@, phase },
                data@,
            ),
{
    let events = two_events(reply(turn_id.as_str(), data), complete());
    step_into(
        device_id,
        turn_id,
        Phase::Finished(Ending::Completed),
        events,
        Action::Respond(Ending::Completed),
    )
}

/// The step that starts to say `text`.
fn speak_step(device_id: String, turn_id: String, text: String) -> (next: (Run, Step))
    ensures
        forall|phase: PhaseView|
            step_view(next) == speak(
                RunView { device: device_id@, turn: turn_id@, phase },
                text@,
            ),
{
    let spoken = ChatReplyData::Speech(SpeechResult::new_text_only(text.as_str()));
    let events = two_events(processing(AssistantStep::Speech), reply(turn_id.as_str(), spoken));
    step_into(
        device_id,
        turn_id,
        Phase::Speech { text: text.clone() },
        events,
        Action::Synthesize { text },
    )
}

/// The step on an outcome that the run does not wait for.
fn misplaced_step(device_id: String, turn_id: String, phase: Phase) -> (next: (Run, Step))
    ensures
        step_view(next) == misplaced(
            RunView { device: device_id@, turn: turn_id@, phase: phase@ },
        ),
{
    match phase {
        Phase::Finished(ending) => idle_step(device_id, turn_id, ending),
        _ => fail_step(device_id, turn_id, "unexpected outcome for this stage"),
    }
}

/// The step on the upload.
fn upload_step(device_id: String, turn_id: String, outcome: Outcome) -> (next: (Run, Step))
    ensures
        step_view(next) == accept_upload(
            RunView { device: device_id@, turn: turn_id@, phase: PhaseView::Upload },
            outcome@,
        ),
{
    match outcome {
        Outcome::Upload { name: Some(name), data } => {
            if same_text(name.as_str(), "audio") {
                step_into(
                    device_id,
                    turn_id,
                    Phase::Transcription,
                    one_event(in_transcription()),
                    Action::Transcribe {
                        audio: data,
                        hint: "If audio language is Chinese, please use simplified chinese".to_owned(),
                    },
                )
            } else {
                idle_step(device_id, turn_id, Ending::Rejected)
            }
        },
        Outcome::Upload { name: None, .. } => idle_step(device_id, turn_id, Ending::Rejected),
        Outcome::NoUpload => idle_step(device_id, turn_id, Ending::Rejected),
        _ => misplaced_step(device_id, turn_id, Phase::Upload),
    }
}

/// The step on the transcript.
fn transcript_step(device_id: String, turn_id: String, text: String, now: &str) -> (next: (
    Run,
    Step,
))
    ensures
        forall|phase: PhaseView|
            step_view(next) == transcribed(
                RunView { device: device_id@, turn: turn_id@, phase },
                text@,
                now@,
            ),
{
    let id = turn_id.as_str();
    let skeleton = AssistantEvent::InputSkeleton(ChatInputSkeletonEvent::at(id, now));
    let input = AssistantEvent::Input(ChatInputEvent::new(id, text.as_str()));
    let thinking = processing(AssistantStep::Thinking);
    let placeholder = AssistantEvent::ReplySkeleton(ChatReplySkeletonEvent::new(id));
    let mut events: Vec<AssistantEvent> = Vec::new();
    events.push(skeleton);
    events.push(input);
    events.push(thinking);
    events.push(placeholder);
    assert(views(events@) =~= seq![skeleton@, input@, thinking@, placeholder@]);
    let request = tool_completion_request(text.as_str(), "zheng");
    step_into(device_id, turn_id, Phase::Thinking, events, Action::Decide(request))
}

/// The step on the language model's choice.
fn decision_step(device_id: String, turn_id: String, choices: Vec<Choice>) -> (next: (Run, Step))
    ensures
        forall|phase: PhaseView|
            step_view(next) == decided(
                RunView { device: device_id@, turn: turn_id@, phase },
                Seq::new(choices@.len(), |i: int| choices@[i]@),
            ),
{
    let mut choices = choices;
    if choices.len() == 0 {
        return fail_step(device_id, turn_id, "expect at least one choice");
    }
    let choice = choices.swap_remove(0);
    match choice.finish_reason {
        FinishReason::Stop => match choice.content {
            Some(text) => speak_step(device_id, turn_id, text),
            None => fail_step(device_id, turn_id, "expect content but no content available"),
        },
        FinishReason::ToolCalls => {
            let mut calls = choice.tool_calls;
            if calls.len() == 0 {
                return fail_step(device_id, turn_id, "expect at least one tool call");
            }
            let call = calls.swap_remove(0);
            let tool = AssistantTool::resolve(call.name.as_str());
            step_into(
                device_id,
                turn_id,
                Phase::Arguments(tool),
                no_event(),
                Action::DecodeArguments { tool, json: call.arguments },
            )
        },
        FinishReason::Other => step_into(
            device_id,
            turn_id,
            Phase::Finished(Ending::Completed),
            one_event(complete()),
            Action::Respond(Ending::Completed),
        ),
    }
}

/// The step on the decoded arguments of a call of `tool`.
fn dispatch_step(device_id: String, turn_id: String, tool: AssistantTool, prompt: String) -> (next:
    (Run, Step))
    ensures
        forall|phase: PhaseView|
            step_view(next) == dispatched(
                RunView { device: device_id@, turn: turn_id@, phase },
                tool,
                prompt@,
            ),
{
    match tool {
        AssistantTool::DrawImage => step_into(
            device_id,
            turn_id,
            Phase::Image,
            one_event(processing(AssistantStep::DrawImage)),
            Action::DrawImage { prompt },
        ),
        AssistantTool::WriteCode => step_into(
            device_id,
            turn_id,
            Phase::Code,
            one_event(processing(AssistantStep::WriteCode)),
            Action::Chat(code_request(prompt.as_str())),
        ),
        AssistantTool::Answer => step_into(
            device_id,
            turn_id,
            Phase::Answer,
            one_event(processing(AssistantStep::ChatCompletion)),
            Action::Chat(answer_request(prompt.as_str())),
        ),
    }
}

/// What a plain completion says, or the description of what is missing.
fn completion_of(choices: Vec<Choice>) -> (text: Result<String, &'static str>)
    ensures
        match text {
            Ok(t) => completion_text(Seq::new(choices@.len(), |i: int| choices@[i]@)) == Ok::<
                Seq<char>,
                Seq<char>,
            >(t@),
            Err(m) => completion_text(Seq::new(choices@.len(), |i: int| choices@[i]@)) == Err::<
                Seq<char>,
                Seq<char>,
            >(m@),
        },
{
    let mut choices = choices;
    match choices.pop() {
        None => Err("expect at least one choice"),
        Some(choice) => match choice.content {
            Some(text) => Ok(text),
            None => Err("expect content but no content available"),
        },
    }
}

impl Run {
    /// The device that the run belongs to.
    pub fn device_id(&self) -> (id: &str)
        ensures
            id@ == self@.device,
    {
        self.device_id.as_str()
    }

    /// The turn that the run's content events belong to.
    pub fn turn_id(&self) -> (id: &str)
        ensures
            id@ == self@.turn,
    {
        self.turn_id.as_str()
    }

    /// Whether the run is over.
    pub fn is_finished(&self) -> (over: bool)
        ensures
            over == self@.phase.is_finished(),
    {
        match self.phase {
            Phase::Finished(_) => true,
            _ => false,
        }
    }

    /// Begins the run of turn `turn_id` on device `device_id`.
    pub fn begin_with(device_id: &str, turn_id: &str) -> (next: (Run, Step))
        ensures
            step_view(next) == first_step(device_id@, turn_id@),
    {
        step_into(
            device_id.to_owned(),
            turn_id.to_owned(),
            Phase::Upload,
            one_event(in_audio_upload()),
            Action::ReadUpload,
        )
    }

    /// Begins a run on device `device_id`, under a turn identifier minted for
    /// it. Whatever the identifier, the step is the first step of that turn.
    pub fn begin(device_id: &str) -> (next: (Run, Step))
        ensures
            is_identifier(next.0@.turn),
            step_view(next) == first_step(device_id@, next.0@.turn),
    {
        let turn_id = fresh_id();
        Run::begin_with(device_id, turn_id.as_str())
    }

    /// The step of a run that waits for code, on the code's markup `html`.
    pub fn code_rendered(self, html: &str) -> (next: (Run, Step))
        ensures
            step_view(next) == code_rendered(self@, html@),
    {
        let Run { device_id, turn_id, phase } = self;
        match phase {
            Phase::Code => finish_step(
                device_id,
                turn_id,
                ChatReplyData::Markdown(WriteCodeResult::new(html)),
            ),
            _ => misplaced_step(device_id, turn_id, phase),
        }
    }

    /// The step of a run that waits for an image, on the image's decoded
    /// bytes, if its data could be decoded, and the prompt it was drawn from;
    /// the image is stored under the name `fresh`.
    pub fn image_decoded(self, decoded: Option<Vec<u8>>, prompt: &str, fresh: &str) -> (next: (
        Run,
        Step,
    ))
        ensures
            step_view(next) == image_decoded(
                self@,
                match decoded {
                    Some(bytes) => Some(bytes@),
                    None => None,
                },
                prompt@,
                fresh@,
            ),
    {
        let Run { device_id, turn_id, phase } = self;
        match phase {
            Phase::Image => match decoded {
                Some(bytes) => {
                    let path = image_path(device_id.as_str(), fresh);
                    let url = image_url(device_id.as_str(), fresh);
                    step_into(
                        device_id,
                        turn_id,
                        Phase::ImageStore { url, prompt: prompt.to_owned() },
                        no_event(),
                        Action::Store { path, bytes },
                    )
                },
                None => fail_step(device_id, turn_id, "image data is not valid base64"),
            },
            _ => misplaced_step(device_id, turn_id, phase),
        }
    }

    /// One step: what the run does on `outcome`, stamping with the time `now`
    /// and storing under the name `fresh` where the step does either.
    pub fn advance_with(self, outcome: Outcome, now: &str, fresh: &str) -> (next: (Run, Step))
        ensures
            step_view(next) == step(self@, outcome@, now@, fresh@),
    {
        let Run { device_id, turn_id, phase } = self;
        match phase {
            Phase::Finished(ending) => idle_step(device_id, turn_id, ending),
            _ => match outcome {
                Outcome::Failure(message) => fail_step(device_id, turn_id, message.as_str()),
                _ => Run { device_id, turn_id, phase }.proceed(outcome, now, fresh),
            },
        }
    }

    /// The step of a run under way on an outcome that is no failure.
    fn proceed(self, outcome: Outcome, now: &str, fresh: &str) -> (next: (Run, Step))
        ensures
            step_view(next) == proceed(self@, outcome@, now@, fresh@),
    {
        let Run { device_id, turn_id, phase } = self;
        match (phase, outcome) {
            (Phase::Upload, outcome) => upload_step(device_id, turn_id, outcome),
            (Phase::Transcription, Outcome::Transcript(text)) => transcript_step(
                device_id,
                turn_id,
                text,
                now,
            ),
            (Phase::Thinking, Outcome::Choices(choices)) => decision_step(
                device_id,
                turn_id,
                choices,
            ),
            (Phase::Arguments(tool), Outcome::Arguments(prompt)) => dispatch_step(
                device_id,
                turn_id,
                tool,
                prompt,
            ),
            (Phase::Answer, Outcome::Choices(choices)) => match completion_of(choices) {
                Ok(text) => speak_step(device_id, turn_id, text),
                Err(message) => fail_step(device_id, turn_id, message),
            },
            (Phase::Code, Outcome::Choices(choices)) => match completion_of(choices) {
                Ok(markdown) => {
                    let html = markdown_to_html(markdown.as_str());
                    Run { device_id, turn_id, phase: Phase::Code }.code_rendered(html.as_str())
                },
                Err(message) => fail_step(device_id, turn_id, message),
            },
            (Phase::Speech { text }, Outcome::Audio(bytes)) => {
                let path = audio_path(device_id.as_str(), fresh);
                let url = audio_url(device_id.as_str(), fresh);
                step_into(
                    device_id,
                    turn_id,
                    Phase::SpeechStore { text, url },
                    no_event(),
                    Action::Store { path, bytes },
                )
            },
            (Phase::SpeechStore { text, url }, Outcome::Stored) => finish_step(
                device_id,
                turn_id,
                ChatReplyData::Speech(SpeechResult::new(text.as_str(), url.as_str())),
            ),
            (Phase::Image, Outcome::Images(images)) => {
                let mut images = images;
                match images.pop() {
                    None => fail_step(device_id, turn_id, "expect at least one data"),
                    Some(image) => match image.b64_json {
                        None => fail_step(device_id, turn_id, "expect image data in base64"),
                        Some(text) => {
                            let decoded = match decode_base64(text.as_str()) {
                                Ok(bytes) => Some(bytes),
                                Err(_) => None,
                            };
                            Run { device_id, turn_id, phase: Phase::Image }.image_decoded(
                                decoded,
                                image.revised_prompt.as_str(),
                                fresh,
                            )
                        },
                    },
                }
            },
            (Phase::ImageStore { url, prompt }, Outcome::Stored) => finish_step(
                device_id,
                turn_id,
                ChatReplyData::Image(DrawImageResult::new(url.as_str(), prompt.as_str())),
            ),
            (phase, _) => misplaced_step(device_id, turn_id, phase),
        }
    }

    /// One step: what the run does on `outcome`. The time that the step
    /// stamps with is taken from the clock, and the name it stores under is
    /// minted, where the step does either; so the step is [`step`] for some
    /// time and some name.
    pub fn advance(self, outcome: Outcome) -> (next: (Run, Step))
        ensures
            exists|now: Seq<char>, fresh: Seq<char>|
                (fresh.len() == 0 || is_identifier(fresh)) && step_view(next) == step(
                    self@,
                    outcome@,
                    now,
                    fresh,
                ),
    {
        let now = match self.phase {
            Phase::Transcription => local_timestamp(),
            _ => String::new(),
        };
        let fresh = match self.phase {
            Phase::Speech { .. } | Phase::Image => fresh_id(),
            _ => String::new(),
        };
        let next = self.advance_with(outcome, now.as_str(), fresh.as_str());
        assert((fresh@.len() == 0 || is_identifier(fresh@)) && step_view(next) == step(
            self@,
            outcome@,
            now@,
            fresh@,
        ));
        next
    }
}

} // verus!
