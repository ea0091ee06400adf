//! The events exchanged between a pipeline run and the subscribers of a
//! device.
//!
//! An event is either a signal, which reports the life cycle of a run and has
//! no identity of its own, or a content event, which belongs to a turn and
//! carries the turn's identifier. Contracts speak of an event through its
//! view, [`EventView`], in which every text is a sequence of characters.

use vstd::prelude::*;
use vstd::std_specs::convert::FromSpecImpl;
use crate::outside::local_timestamp;
use crate::text::same_text;

verus! {

/// A step of the assistant pipeline, reported to subscribers while it runs.
#[derive(Clone, Copy, Debug, PartialEq, Eq, Structural)]
pub enum AssistantStep {
    UploadAudio,
    Transcription,
    Thinking,
    ChatCompletion,
    Speech,
    DrawImage,
    WriteCode,
}

/// What a reply carries, as a mathematical value.
pub enum ReplyView {
    Speech { text: Seq<char>, url: Seq<char> },
    Image { url: Seq<char>, prompt: Seq<char> },
    Markdown { content: Seq<char> },
}

/// An event as a mathematical value.
pub enum EventView {
    Processing(AssistantStep),
    Finish(AssistantStep),
    Error(Seq<char>),
    Complete,
    Input { id: Seq<char>, content: Seq<char> },
    InputSkeleton { id: Seq<char>, datetime: Seq<char>, avatar: Seq<char>, name: Seq<char> },
    Reply { id: Seq<char>, data: ReplyView },
    ReplySkeleton { id: Seq<char>, avatar: Seq<char>, name: Seq<char> },
}

impl EventView {
    /// The signal that ends a run: `Complete` or `Error`.
    pub open spec fn is_terminal(self) -> bool {
        self is Complete || self is Error
    }

    /// The identifier of the turn that a content event belongs to; a signal
    /// has none.
    pub open spec fn turn_id(self) -> Option<Seq<char>> {
        match self {
            EventView::Input { id, .. } => Some(id),
            EventView::InputSkeleton { id, .. } => Some(id),
            EventView::Reply { id, .. } => Some(id),
            EventView::ReplySkeleton { id, .. } => Some(id),
            _ => None,
        }
    }
}

/// The life cycle of a run.
#[derive(Clone, Debug, PartialEq, Eq)]
pub enum SignalEvent {
    Processing(AssistantStep),
    Finish(AssistantStep),
    Error(String),
    Complete,
}

/// What the user said, once transcribed.
#[derive(Clone, Debug, PartialEq, Eq)]
pub struct ChatInputEvent {
    pub id: String,
    pub content: String,
}

/// The placeholder shown for the user's turn before the transcript is there.
#[derive(Clone, Debug, PartialEq, Eq)]
pub struct ChatInputSkeletonEvent {
    pub id: String,
    pub datetime: String,
    pub avatar: String,
    pub name: String,
}

/// A spoken answer: its text, and where the audio is served. The address is
/// empty as long as the audio has not been synthesized.
#[derive(Clone, Debug, PartialEq, Eq)]
pub struct SpeechResult {
    pub text: String,
    pub url: String,
}

/// A drawn image: where it is served, and the prompt it was drawn from.
#[derive(Clone, Debug, PartialEq, Eq)]
pub struct DrawImageResult {
    pub url: String,
    pub prompt: String,
}

/// Written code, as markup ready to be shown.
#[derive(Clone, Debug, PartialEq, Eq)]
pub struct WriteCodeResult {
    pub content: String,
}

/// The payload of a reply.
#[derive(Clone, Debug, PartialEq, Eq)]
pub enum ChatReplyData {
    Speech(SpeechResult),
    Image(DrawImageResult),
    Markdown(WriteCodeResult),
}

/// The assistant's reply to a turn.
#[derive(Clone, Debug, PartialEq, Eq)]
pub struct ChatReplyEvent {
    pub id: String,
    pub data: ChatReplyData,
}

/// The placeholder shown for the assistant's reply before it is there.
#[derive(Clone, Debug, PartialEq, Eq)]
pub struct ChatReplySkeletonEvent {
    pub id: String,
    pub avatar: String,
    pub name: String,
}

/// An event on a device's bus.
#[derive(Clone, Debug, PartialEq, Eq)]
pub enum AssistantEvent {
    Signal(SignalEvent),
    Input(ChatInputEvent),
    InputSkeleton(ChatInputSkeletonEvent),
    Reply(ChatReplyEvent),
    ReplySkeleton(ChatReplySkeletonEvent),
}

impl View for SignalEvent {
    type V = EventView;

    open spec fn view(&self) -> EventView {
        match self {
            SignalEvent::Processing(step) => EventView::Processing(*step),
            SignalEvent::Finish(step) => EventView::Finish(*step),
            SignalEvent::Error(message) => EventView::Error(message@),
            SignalEvent::Complete => EventView::Complete,
        }
    }
}

impl View for ChatInputEvent {
    type V = EventView;

    open spec fn view(&self) -> EventView {
        EventView::Input { id: self.id@, content: self.content@ }
    }
}

impl View for ChatInputSkeletonEvent {
    type V = EventView;

    open spec fn view(&self) -> EventView {
        EventView::InputSkeleton {
            id: self.id@,
            datetime: self.datetime@,
            avatar: self.avatar@,
            name: self.name@,
        }
    }
}

impl View for SpeechResult {
    type V = ReplyView;

    open spec fn view(&self) -> ReplyView {
        ReplyView::Speech { text: self.text@, url: self.url@ }
    }
}

impl View for DrawImageResult {
    type V = ReplyView;

    open spec fn view(&self) -> ReplyView {
        ReplyView::Image { url: self.url@, prompt: self.prompt@ }
    }
}

impl View for WriteCodeResult {
    type V = ReplyView;

    open spec fn view(&self) -> ReplyView {
        ReplyView::Markdown { content: self.content@ }
    }
}

impl View for ChatReplyData {
    type V = ReplyView;

    open spec fn view(&self) -> ReplyView {
        match self {
            ChatReplyData::Speech(speech) => speech@,
            ChatReplyData::Image(image) => image@,
            ChatReplyData::Markdown(code) => code@,
        }
    }
}

impl View for ChatReplyEvent {
    type V = EventView;

    open spec fn view(&self) -> EventView {
        EventView::Reply { id: self.id@, data: self.data@ }
    }
}

impl View for ChatReplySkeletonEvent {
    type V = EventView;

    open spec fn view(&self) -> EventView {
        EventView::ReplySkeleton { id: self.id@, avatar: self.avatar@, name: self.name@ }
    }
}

impl View for AssistantEvent {
    type V = EventView;

    open spec fn view(&self) -> EventView {
        match self {
            AssistantEvent::Signal(signal) => signal@,
            AssistantEvent::Input(input) => input@,
            AssistantEvent::InputSkeleton(skeleton) => skeleton@,
            AssistantEvent::Reply(reply) => reply@,
            AssistantEvent::ReplySkeleton(skeleton) => skeleton@,
        }
    }
}

/// The views of a list of events, in order.
pub open spec fn views(events: Seq<AssistantEvent>) -> Seq<EventView> {
    Seq::new(events.len(), |i: int| events[i]@)
}

impl AssistantStep {
    /// The step's name on the wire, in snake case.
    pub open spec fn label_text(self) -> Seq<char> {
        match self {
            AssistantStep::UploadAudio => "upload_audio"@,
            AssistantStep::Transcription => "transcription"@,
            AssistantStep::Thinking => "thinking"@,
            AssistantStep::ChatCompletion => "chat_completion"@,
            AssistantStep::Speech => "speech"@,
            AssistantStep::DrawImage => "draw_image"@,
            AssistantStep::WriteCode => "write_code"@,
        }
    }

    /// The step's name on the wire.
    pub fn label(&self) -> (r: &'static str)
        ensures
            r@ == self.label_text(),
    {
        match self {
            AssistantStep::UploadAudio => "upload_audio",
            AssistantStep::Transcription => "transcription",
            AssistantStep::Thinking => "thinking",
            AssistantStep::ChatCompletion => "chat_completion",
            AssistantStep::Speech => "speech",
            AssistantStep::DrawImage => "draw_image",
            AssistantStep::WriteCode => "write_code",
        }
    }

    /// The step that `label` names, if it names one.
    pub fn parse(label: &str) -> (r: Option<AssistantStep>)
        ensures
            match r {
                Some(step) => step.label_text() == label@,
                None => forall|step: AssistantStep| step.label_text() != label@,
            },
    {
        if same_text(label, "upload_audio") {
            Some(AssistantStep::UploadAudio)
        } else if same_text(label, "transcription") {
            Some(AssistantStep::Transcription)
        } else if same_text(label, "thinking") {
            Some(AssistantStep::Thinking)
        } else if same_text(label, "chat_completion") {
            Some(AssistantStep::ChatCompletion)
        } else if same_text(label, "speech") {
            Some(AssistantStep::Speech)
        } else if same_text(label, "draw_image") {
            Some(AssistantStep::DrawImage)
        } else if same_text(label, "write_code") {
            Some(AssistantStep::WriteCode)
        } else {
            None
        }
    }

    /// No two steps share a name: a step is told by its label.
    pub proof fn label_tells_the_step(a: AssistantStep, b: AssistantStep)
        requires
            a.label_text() == b.label_text(),
        ensures
            a == b,
    {
        reveal_strlit("upload_audio");
        reveal_strlit("transcription");
        reveal_strlit("thinking");
        reveal_strlit("chat_completion");
        reveal_strlit("speech");
        reveal_strlit("draw_image");
        reveal_strlit("write_code");
        if a != b {
            let x = a.label_text();
            let y = b.label_text();
            assert(x.len() != y.len() || x[0] != y[0]);
        }
    }
}

/// The avatar shown beside the user's turn.
pub open spec fn user_avatar() -> Seq<char> {
    "https://i.pravatar.cc/300"@
}

/// The name shown beside the user's turn.
pub open spec fn user_name() -> Seq<char> {
    "userName"@
}

/// The avatar shown beside the assistant's reply.
pub open spec fn assistant_avatar() -> Seq<char> {
    "/public/images/q-bot.png"@
}

/// The name shown beside the assistant's reply.
pub open spec fn assistant_name() -> Seq<char> {
    "Q"@
}

impl ChatInputEvent {
    /// The transcript `message` of turn `id`.
    pub fn new(id: &str, message: &str) -> (r: Self)
        ensures
            r@ == (EventView::Input { id: id@, content: message@ }),
    {
        ChatInputEvent { id: id.to_owned(), content: message.to_owned() }
    }
}

impl ChatInputSkeletonEvent {
    /// The placeholder of turn `id`, stamped with `datetime`.
    pub fn at(id: &str, datetime: &str) -> (r: Self)
        ensures
            r@ == (EventView::InputSkeleton {
                id: id@,
                datetime: datetime@,
                avatar: user_avatar(),
                name: user_name(),
            }),
    {
        ChatInputSkeletonEvent {
            id: id.to_owned(),
            datetime: datetime.to_owned(),
            avatar: "https://i.pravatar.cc/300".to_owned(),
            name: "userName".to_owned(),
        }
    }

    /// The placeholder of turn `id`, stamped with the local time of the call.
    /// Whatever the clock says, the other fields are those of [`Self::at`].
    pub fn new(id: &str) -> (r: Self)
        ensures
            r@ == (EventView::InputSkeleton {
                id: id@,
                datetime: r.datetime@,
                avatar: user_avatar(),
                name: user_name(),
            }),
    {
        let now = local_timestamp();
        ChatInputSkeletonEvent::at(id, now.as_str())
    }
}

impl SpeechResult {
    /// The answer `text`, with its audio served at `url`.
    pub fn new(text: &str, url: &str) -> (r: Self)
        ensures
            r@ == (ReplyView::Speech { text: text@, url: url@ }),
    {
        SpeechResult { text: text.to_owned(), url: url.to_owned() }
    }

    /// The answer `text` before its audio exists: the address is empty.
    pub fn new_text_only(text: &str) -> (r: Self)
        ensures
            r@ == (ReplyView::Speech { text: text@, url: Seq::<char>::empty() }),
    {
        SpeechResult { text: text.to_owned(), url: String::new() }
    }
}

impl DrawImageResult {
    /// The image served at `url`, drawn from `prompt`.
    pub fn new(url: &str, prompt: &str) -> (r: Self)
        ensures
            r@ == (ReplyView::Image { url: url@, prompt: prompt@ }),
    {
        DrawImageResult { prompt: prompt.to_owned(), url: url.to_owned() }
    }
}

impl WriteCodeResult {
    /// Written code whose markup is `content`.
    pub fn new(content: &str) -> (r: Self)
        ensures
            r@ == (ReplyView::Markdown { content: content@ }),
    {
        WriteCodeResult { content: content.to_owned() }
    }
}

impl ChatReplyEvent {
    /// The reply `data` to turn `id`.
    pub fn new(id: &str, data: ChatReplyData) -> (r: Self)
        ensures
            r@ == (EventView::Reply { id: id@, data: data@ }),
    {
        ChatReplyEvent { id: id.to_owned(), data }
    }
}

impl ChatReplySkeletonEvent {
    /// The placeholder of the reply to turn `id`.
    pub fn new(id: &str) -> (r: Self)
        ensures
            r@ == (EventView::ReplySkeleton {
                id: id@,
                avatar: assistant_avatar(),
                name: assistant_name(),
            }),
    {
        ChatReplySkeletonEvent {
            id: id.to_owned(),
            avatar: "/public/images/q-bot.png".to_owned(),
            name: "Q".to_owned(),
        }
    }
}

/// The signal that `step` has begun.
pub fn processing(step: AssistantStep) -> (r: AssistantEvent)
    ensures
        r@ == EventView::Processing(step),
{
    AssistantEvent::Signal(SignalEvent::Processing(step))
}

/// The signal that the audio upload is being read.
pub fn in_audio_upload() -> (r: AssistantEvent)
    ensures
        r@ == EventView::Processing(AssistantStep::UploadAudio),
{
    processing(AssistantStep::UploadAudio)
}

/// The signal that the audio is being transcribed.
pub fn in_transcription() -> (r: AssistantEvent)
    ensures
        r@ == EventView::Processing(AssistantStep::Transcription),
{
    processing(AssistantStep::Transcription)
}

/// The signal that the language model is choosing what to do.
pub fn in_thinking() -> (r: AssistantEvent)
    ensures
        r@ == EventView::Processing(AssistantStep::Thinking),
{
    processing(AssistantStep::Thinking)
}

/// The signal that the language model is writing an answer.
pub fn in_chat_completion() -> (r: AssistantEvent)
    ensures
        r@ == EventView::Processing(AssistantStep::ChatCompletion),
{
    processing(AssistantStep::ChatCompletion)
}

/// The signal that the answer is being turned into speech.
pub fn in_speech() -> (r: AssistantEvent)
    ensures
        r@ == EventView::Processing(AssistantStep::Speech),
{
    processing(AssistantStep::Speech)
}

/// The signal that an image is being drawn.
pub fn in_draw_image() -> (r: AssistantEvent)
    ensures
        r@ == EventView::Processing(AssistantStep::DrawImage),
{
    processing(AssistantStep::DrawImage)
}

/// The signal that code is being written.
pub fn in_write_code() -> (r: AssistantEvent)
    ensures
        r@ == EventView::Processing(AssistantStep::WriteCode),
{
    processing(AssistantStep::WriteCode)
}

/// The signal that the run has ended well.
pub fn complete() -> (r: AssistantEvent)
    ensures
        r@ == EventView::Complete,
{
    AssistantEvent::Signal(SignalEvent::Complete)
}

/// The signal that the run has failed, with the failure's description.
pub fn error(msg: &str) -> (r: AssistantEvent)
    ensures
        r@ == EventView::Error(msg@),
{
    AssistantEvent::Signal(SignalEvent::Error(msg.to_owned()))
}

/// The reply `data` to turn `id`, as an event.
pub fn reply(id: &str, data: ChatReplyData) -> (r: AssistantEvent)
    ensures
        r@ == (EventView::Reply { id: id@, data: data@ }),
{
    AssistantEvent::Reply(ChatReplyEvent::new(id, data))
}

impl FromSpecImpl<SignalEvent> for AssistantEvent {
    open spec fn obeys_from_spec() -> bool {
        true
    }

    open spec fn from_spec(signal: SignalEvent) -> AssistantEvent {
        AssistantEvent::Signal(signal)
    }
}

impl From<SignalEvent> for AssistantEvent {
    fn from(signal: SignalEvent) -> (event: AssistantEvent) {
        AssistantEvent::Signal(signal)
    }
}

impl FromSpecImpl<ChatInputEvent> for AssistantEvent {
    open spec fn obeys_from_spec() -> bool {
        true
    }

    open spec fn from_spec(input: ChatInputEvent) -> AssistantEvent {
        AssistantEvent::Input(input)
    }
}

impl From<ChatInputEvent> for AssistantEvent {
    fn from(input: ChatInputEvent) -> (event: AssistantEvent) {
        AssistantEvent::Input(input)
    }
}

impl FromSpecImpl<ChatInputSkeletonEvent> for AssistantEvent {
    open spec fn obeys_from_spec() -> bool {
        true
    }

    open spec fn from_spec(skeleton: ChatInputSkeletonEvent) -> AssistantEvent {
        AssistantEvent::InputSkeleton(skeleton)
    }
}

impl From<ChatInputSkeletonEvent> for AssistantEvent {
    fn from(skeleton: ChatInputSkeletonEvent) -> (event: AssistantEvent) {
        AssistantEvent::InputSkeleton(skeleton)
    }
}

impl FromSpecImpl<ChatReplyEvent> for AssistantEvent {
    open spec fn obeys_from_spec() -> bool {
        true
    }

    open spec fn from_spec(reply: ChatReplyEvent) -> AssistantEvent {
        AssistantEvent::Reply(reply)
    }
}

impl From<ChatReplyEvent> for AssistantEvent {
    fn from(reply: ChatReplyEvent) -> (event: AssistantEvent) {
        AssistantEvent::Reply(reply)
    }
}

impl FromSpecImpl<ChatReplySkeletonEvent> for AssistantEvent {
    open spec fn obeys_from_spec() -> bool {
        true
    }

    open spec fn from_spec(skeleton: ChatReplySkeletonEvent) -> AssistantEvent {
        AssistantEvent::ReplySkeleton(skeleton)
    }
}

impl From<ChatReplySkeletonEvent> for AssistantEvent {
    fn from(skeleton: ChatReplySkeletonEvent) -> (event: AssistantEvent) {
        AssistantEvent::ReplySkeleton(skeleton)
    }
}

impl FromSpecImpl<SpeechResult> for ChatReplyData {
    open spec fn obeys_from_spec() -> bool {
        true
    }

    open spec fn from_spec(speech: SpeechResult) -> ChatReplyData {
        ChatReplyData::Speech(speech)
    }
}

impl From<SpeechResult> for ChatReplyData {
    fn from(speech: SpeechResult) -> (data: ChatReplyData) {
        ChatReplyData::Speech(speech)
    }
}

impl FromSpecImpl<DrawImageResult> for ChatReplyData {
    open spec fn obeys_from_spec() -> bool {
        true
    }

    open spec fn from_spec(image: DrawImageResult) -> ChatReplyData {
        ChatReplyData::Image(image)
    }
}

impl From<DrawImageResult> for ChatReplyData {
    fn from(image: DrawImageResult) -> (data: ChatReplyData) {
        ChatReplyData::Image(image)
    }
}

impl FromSpecImpl<WriteCodeResult> for ChatReplyData {
    open spec fn obeys_from_spec() -> bool {
        true
    }

    open spec fn from_spec(code: WriteCodeResult) -> ChatReplyData {
        ChatReplyData::Markdown(code)
    }
}

impl From<WriteCodeResult> for ChatReplyData {
    fn from(code: WriteCodeResult) -> (data: ChatReplyData) {
        ChatReplyData::Markdown(code)
    }
}

} // verus!
