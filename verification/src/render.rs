//! The markup body of each event.
//!
//! A body is markup for the page that shows the conversation. Its fixed
//! parts are written in escaped form, a line break of the markup as the two
//! characters `\n` and a double quote as `\"`. Text that comes from outside
//! (a transcript, an answer, a prompt, an address, a failure's description)
//! is put in with the five characters `&`, `<`, `>`, `"` and `'` replaced by
//! their entities, so that it cannot open or close a tag; the markup of
//! written code is put in as it is.

use vstd::prelude::*;
use crate::event::{AssistantEvent, ChatInputEvent, ChatInputSkeletonEvent, ChatReplyData};
use crate::event::{ChatReplyEvent, ChatReplySkeletonEvent, DrawImageResult, EventView};
use crate::event::{ReplyView, SignalEvent, SpeechResult, WriteCodeResult};
use crate::outside::is_identifier;

verus! {

/// What stands for one character in escaped text.
pub open spec fn escaped_char(c: char) -> Seq<char> {
    if c == '&' {
        "&amp;"@
    } else if c == '<' {
        "&lt;"@
    } else if c == '>' {
        "&gt;"@
    } else if c == '"' {
        "&quot;"@
    } else if c == '\'' {
        "&#x27;"@
    } else {
        seq![c]
    }
}

/// The text with each of `&`, `<`, `>`, `"` and `'` replaced by its entity.
pub open spec fn escaped(text: Seq<char>) -> Seq<char>
    decreases text.len(),
{
    if text.len() == 0 {
        Seq::empty()
    } else {
        escaped(text.drop_last()) + escaped_char(text.last())
    }
}

/// The text with each of `&`, `<`, `>`, `"` and `'` replaced by its entity.
pub fn escape_html(text: &str) -> (out: String)
    ensures
        out@ == escaped(text@),
{
    let mut out = String::new();
    for c in it: text.chars()
        invariant
            it.seq() == text@,
            out@ == escaped(text@.take(it.index() as int)),
    {
        assert(text@.take(it.index() + 1).drop_last() == text@.take(it.index() as int));
        if c == '&' {
            out.append("&amp;");
        } else if c == '<' {
            out.append("&lt;");
        } else if c == '>' {
            out.append("&gt;");
        } else if c == '"' {
            out.append("&quot;");
        } else if c == '\'' {
            out.append("&#x27;");
        } else {
            out.push(c);
        }
    }
    assert(text@.take(text@.len() as int) == text@);
    out
}

/// Escaped text holds no character that opens or closes a tag or a quoted
/// value: none of `<`, `>`, `"` and `'` occurs in it.
pub proof fn escaped_text_is_inert(text: Seq<char>, i: int)
    requires
        0 <= i < escaped(text).len(),
    ensures
        escaped(text)[i] != '<',
        escaped(text)[i] != '>',
        escaped(text)[i] != '"',
        escaped(text)[i] != '\'',
    decreases text.len(),
{
    reveal_strlit("&amp;");
    reveal_strlit("&lt;");
    reveal_strlit("&gt;");
    reveal_strlit("&quot;");
    reveal_strlit("&#x27;");
    if text.len() > 0 {
        let head = escaped(text.drop_last());
        if i < head.len() {
            escaped_text_is_inert(text.drop_last(), i);
        }
    }
}

/// Text without any of the five characters is its own escaped form.
pub proof fn plain_text_is_unchanged(text: Seq<char>)
    requires
        forall|i: int|
            0 <= i < text.len() ==> {
                let c = #[trigger] text[i];
                c != '&' && c != '<' && c != '>' && c != '"' && c != '\''
            },
    ensures
        escaped(text) == text,
    decreases text.len(),
{
    if text.len() > 0 {
        plain_text_is_unchanged(text.drop_last());
        assert(escaped(text) =~= text);
    }
}

/// An identifier is put into markup as it is: escaping changes none of its
/// characters.
pub proof fn identifier_is_unchanged(id: Seq<char>)
    requires
        is_identifier(id),
    ensures
        escaped(id) == id,
{
    plain_text_is_unchanged(id);
}

/// The markup of a signal: a paragraph of the class `class` that says
/// `words`.
pub open spec fn signal_markup(class: Seq<char>, words: Seq<char>) -> Seq<char> {
    r#"\n    <p class=\""#@ + class + r#"\">  "#@ + words + r#" </p>\n  "#@
}

/// The markup of a spoken answer: its text, and a player for its audio once
/// the audio has an address.
pub open spec fn speech_markup(text: Seq<char>, url: Seq<char>) -> Seq<char> {
    if url.len() == 0 {
        r#"<p class=\"speech\">"#@ + escaped(text) + "</p>"@
    } else {
        r#"<p class=\"speech\">"#@ + escaped(text) + r#"</p><audio controls autoplay src=\""#@
            + escaped(url) + r#"\"></audio>"#@
    }
}

/// The markup of a drawn image, with its prompt as the caption.
pub open spec fn image_markup(url: Seq<char>, prompt: Seq<char>) -> Seq<char> {
    r#"<figure><img src=\""#@ + escaped(url) + r#"\"><figcaption>"#@ + escaped(prompt)
        + "</figcaption></figure>"@
}

/// The markup of written code: the code's own markup in a frame.
pub open spec fn code_markup(content: Seq<char>) -> Seq<char> {
    r#"<div class=\"markdown\">"#@ + content + "</div>"@
}

/// The markup of what a reply carries.
pub open spec fn reply_markup(data: ReplyView) -> Seq<char> {
    match data {
        ReplyView::Speech { text, url } => speech_markup(text, url),
        ReplyView::Image { url, prompt } => image_markup(url, prompt),
        ReplyView::Markdown { content } => code_markup(content),
    }
}

/// The markup of an entry of the conversation: a list item of the kind
/// `kind` for the turn `id`, around `inner`.
pub open spec fn entry_markup(kind: Seq<char>, id: Seq<char>, inner: Seq<char>) -> Seq<char> {
    r#"<li id=\""#@ + kind + "-"@ + escaped(id) + r#"\" class=\""#@ + kind + r#"\">"#@ + inner
        + "</li>"@
}

/// The markup of a placeholder's inside: who speaks, and when, if that is
/// known.
pub open spec fn speaker_markup(avatar: Seq<char>, name: Seq<char>, datetime: Seq<char>) -> Seq<
    char,
> {
    r#"<img class=\"avatar\" src=\""#@ + escaped(avatar) + r#"\"><span class=\"name\">"#@
        + escaped(name) + "</span><time>"@ + escaped(datetime) + "</time>"@
}

/// The body of an event.
pub open spec fn body_text(event: EventView) -> Seq<char> {
    match event {
        EventView::Processing(step) => signal_markup(
            "text-gray-600"@,
            "Processing "@ + step.label_text(),
        ),
        EventView::Finish(step) => signal_markup(
            "text-green-600"@,
            "Finish "@ + step.label_text(),
        ),
        EventView::Error(message) => signal_markup("text-red-600"@, "Error "@ + escaped(message)),
        EventView::Complete => signal_markup("text-green-600"@, "Complete"@),
        EventView::Input { id, content } => entry_markup("input"@, id, escaped(content)),
        EventView::InputSkeleton { id, datetime, avatar, name } => entry_markup(
            "input-skeleton"@,
            id,
            speaker_markup(avatar, name, datetime),
        ),
        EventView::Reply { id, data } => entry_markup("reply"@, id, reply_markup(data)),
        EventView::ReplySkeleton { id, avatar, name } => entry_markup(
            "reply-skeleton"@,
            id,
            speaker_markup(avatar, name, Seq::empty()),
        ),
    }
}

/// The markup of a signal.
fn render_signal(class: &str, words: &str) -> (out: String)
    ensures
        out@ == signal_markup(class@, words@),
{
    let mut out = r#"\n    <p class=\""#.to_owned();
    out.append(class);
    out.append(r#"\">  "#);
    out.append(words);
    out.append(r#" </p>\n  "#);
    out
}

/// The words `word` followed by `rest`.
fn words_of(word: &str, rest: &str) -> (out: String)
    ensures
        out@ == word@ + rest@,
{
    let mut out = word.to_owned();
    out.append(rest);
    out
}

/// The markup of an entry of the conversation.
fn render_entry(kind: &str, id: &str, inner: &str) -> (out: String)
    ensures
        out@ == entry_markup(kind@, id@, inner@),
{
    let id = escape_html(id);
    let mut out = r#"<li id=\""#.to_owned();
    out.append(kind);
    out.append("-");
    out.append(id.as_str());
    out.append(r#"\" class=\""#);
    out.append(kind);
    out.append(r#"\">"#);
    out.append(inner);
    out.append("</li>");
    out
}

/// The markup of a placeholder's inside.
fn render_speaker(avatar: &str, name: &str, datetime: &str) -> (out: String)
    ensures
        out@ == speaker_markup(avatar@, name@, datetime@),
{
    let avatar = escape_html(avatar);
    let name = escape_html(name);
    let datetime = escape_html(datetime);
    let mut out = r#"<img class=\"avatar\" src=\""#.to_owned();
    out.append(avatar.as_str());
    out.append(r#"\"><span class=\"name\">"#);
    out.append(name.as_str());
    out.append("</span><time>");
    out.append(datetime.as_str());
    out.append("</time>");
    out
}

impl SignalEvent {
    /// The body of the signal.
    pub fn render(&self) -> (out: String)
        ensures
            out@ == body_text(self@),
    {
        match self {
            SignalEvent::Processing(step) => {
                let words = words_of("Processing ", step.label());
                render_signal("text-gray-600", words.as_str())
            },
            SignalEvent::Finish(step) => {
                let words = words_of("Finish ", step.label());
                render_signal("text-green-600", words.as_str())
            },
            SignalEvent::Error(message) => {
                let message = escape_html(message.as_str());
                let words = words_of("Error ", message.as_str());
                render_signal("text-red-600", words.as_str())
            },
            SignalEvent::Complete => render_signal("text-green-600", "Complete"),
        }
    }
}

impl SpeechResult {
    /// The markup of the answer.
    pub fn rende(&self) -> (out: String)
        ensures
            out@ == reply_markup(self@),
    {
        let text = escape_html(self.text.as_str());
        let mut out = r#"<p class=\"speech\">"#.to_owned();
        out.append(text.as_str());
        if self.url.as_str().is_empty() {
            out.append("</p>");
        } else {
            let url = escape_html(self.url.as_str());
            out.append(r#"</p><audio controls autoplay src=\""#);
            out.append(url.as_str());
            out.append(r#"\"></audio>"#);
        }
        out
    }
}

impl DrawImageResult {
    /// The markup of the image.
    pub fn render(&self) -> (out: String)
        ensures
            out@ == reply_markup(self@),
    {
        let url = escape_html(self.url.as_str());
        let prompt = escape_html(self.prompt.as_str());
        let mut out = r#"<figure><img src=\""#.to_owned();
        out.append(url.as_str());
        out.append(r#"\"><figcaption>"#);
        out.append(prompt.as_str());
        out.append("</figcaption></figure>");
        out
    }
}

impl WriteCodeResult {
    /// The markup of the code.
    pub fn render(&self) -> (out: String)
        ensures
            out@ == reply_markup(self@),
    {
        let mut out = r#"<div class=\"markdown\">"#.to_owned();
        out.append(self.content.as_str());
        out.append("</div>");
        out
    }
}

impl ChatReplyData {
    /// The markup of what the reply carries.
    pub fn render(&self) -> (out: String)
        ensures
            out@ == reply_markup(self@),
    {
        match self {
            ChatReplyData::Speech(speech) => speech.rende(),
            ChatReplyData::Image(image) => image.render(),
            ChatReplyData::Markdown(code) => code.render(),
        }
    }
}

impl ChatInputEvent {
    /// The body of the event.
    pub fn render(&self) -> (out: String)
        ensures
            out@ == body_text(self@),
    {
        let content = escape_html(self.content.as_str());
        render_entry("input", self.id.as_str(), content.as_str())
    }
}

impl ChatInputSkeletonEvent {
    /// The body of the event.
    pub fn render(&self) -> (out: String)
        ensures
            out@ == body_text(self@),
    {
        let speaker = render_speaker(
            self.avatar.as_str(),
            self.name.as_str(),
            self.datetime.as_str(),
        );
        render_entry("input-skeleton", self.id.as_str(), speaker.as_str())
    }
}

impl ChatReplyEvent {
    /// The body of the event.
    pub fn render(&self) -> (out: String)
        ensures
            out@ == body_text(self@),
    {
        let data = self.data.render();
        render_entry("reply", self.id.as_str(), data.as_str())
    }
}

impl ChatReplySkeletonEvent {
    /// The body of the event.
    pub fn render(&self) -> (out: String)
        ensures
            out@ == body_text(self@),
    {
        let speaker = render_speaker(self.avatar.as_str(), self.name.as_str(), "");
        assert(""@ =~= Seq::<char>::empty()) by {
            reveal_strlit("");
        }
        render_entry("reply-skeleton", self.id.as_str(), speaker.as_str())
    }
}

impl AssistantEvent {
    /// The body of the event.
    pub fn render(&self) -> (out: String)
        ensures
            out@ == body_text(self@),
    {
        match self {
            AssistantEvent::Signal(signal) => signal.render(),
            AssistantEvent::Input(input) => input.render(),
            AssistantEvent::InputSkeleton(skeleton) => skeleton.render(),
            AssistantEvent::Reply(reply) => reply.render(),
            AssistantEvent::ReplySkeleton(skeleton) => skeleton.render(),
        }
    }
}

impl vstd::std_specs::convert::FromSpecImpl<AssistantEvent> for String {
    open spec fn obeys_from_spec() -> bool {
        false
    }

    open spec fn from_spec(event: AssistantEvent) -> String {
        arbitrary()
    }
}

impl From<AssistantEvent> for String {
    /// The body of the event.
    fn from(event: AssistantEvent) -> (out: String)
        ensures
            out@ == body_text(event@),
    {
        event.render()
    }
}

} // verus!
