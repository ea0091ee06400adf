//! Calls into other crates and into parts of the standard library that carry
//! no specification of their own.
//!
//! Nothing in this module is proved: each contract restates what the called
//! code documents, and every proof in the library that uses one of these items
//! rests on it.

use vstd::prelude::*;
use std::path::PathBuf;
use base64::Engine;
use dashmap::DashMap;
use tokio::sync::broadcast::error::TryRecvError;
use tokio::sync::broadcast::{Receiver, Sender};
use crate::bus::{Bus, Received};
use crate::event::AssistantEvent;

verus! {

/// `std::path::PathBuf`, an owned file-system path.
#[verifier::external_type_specification]
#[verifier::external_body]
pub struct ExPathBuf(PathBuf);

/// `base64::DecodeError`, the reason why a text is not base64.
#[verifier::external_type_specification]
#[verifier::external_body]
pub struct ExDecodeError(base64::DecodeError);

/// `tokio::sync::broadcast::Sender`, the sending half of a broadcast channel.
/// Its clones are handles of one channel.
#[verifier::external_type_specification]
#[verifier::external_body]
#[verifier::reject_recursive_types(T)]
pub struct ExSender<T>(Sender<T>);

/// `tokio::sync::broadcast::Receiver`, one subscriber of a broadcast channel.
#[verifier::external_type_specification]
#[verifier::external_body]
#[verifier::reject_recursive_types(T)]
pub struct ExReceiver<T>(Receiver<T>);

/// `dashmap::DashMap`, a sharded concurrent hash map.
#[verifier::external_type_specification]
#[verifier::external_body]
#[verifier::reject_recursive_types(K)]
#[verifier::reject_recursive_types(V)]
#[verifier::reject_recursive_types(S)]
pub struct ExDashMap<K, V, S>(DashMap<K, V, S>);

/// What a map of buses holds: for each device identifier in it, the serial
/// number of the bus stored under it.
pub uninterp spec fn entries(map: DashMap<String, Bus>) -> Map<Seq<char>, u64>;

/// The text that a path holds.
pub uninterp spec fn path_text(path: PathBuf) -> Seq<char>;

/// The text of the path that `Path::join` makes of the path written `base`
/// and of `part`.
pub uninterp spec fn joined_text(base: Seq<char>, part: Seq<char>) -> Seq<char>;

/// The bytes that the standard base64 alphabet with padding decodes `text`
/// to, or `None` where `text` is not such an encoding.
pub uninterp spec fn base64_decoded(text: Seq<char>) -> Option<Seq<u8>>;

/// The markup that `comrak` renders the Markdown text `markdown` to, with its
/// default options and with code blocks highlighted by `syntect`. With these
/// options `comrak` gives a tag one attribute at most, so the markup does not
/// depend on the order in which a hash map is walked.
pub uninterp spec fn markdown_html(markdown: Seq<char>) -> Seq<char>;

/// `String::push` appends one character to the end of the string.
pub assume_specification[ String::push ](s: &mut String, c: char)
    ensures
        final(s)@ == old(s)@.push(c),
;

/// The local wall-clock time, written as `%d/%m/%Y %H:%M%S` by
/// `chrono::Local::now().format(..)`. The text depends on the clock and on the
/// machine's time zone, so nothing is claimed of it. Every item of the format
/// is one that `chrono` knows, so writing it cannot fail.
#[verifier::external_body]
pub(crate) fn local_timestamp() -> String {
    chrono::Local::now().format("%d/%m/%Y %H:%M%S").to_string()
}

/// Whether `text` has the form in which `uuid` writes an identifier: 36
/// characters, each a lower-case hexadecimal digit or a hyphen.
pub open spec fn is_identifier(text: Seq<char>) -> bool {
    &&& text.len() == 36
    &&& forall|i: int|
        0 <= i < text.len() ==> {
            let c = #[trigger] text[i];
            ('0' <= c && c <= '9') || ('a' <= c && c <= 'f') || c == '-'
        }
}

/// A version 4 identifier from `uuid::Uuid::new_v4`, written by its
/// `Display`, which is the hyphenated lower-case form. Which identifier it is
/// is drawn at random: only its form is claimed.
#[verifier::external_body]
pub(crate) fn fresh_id() -> (id: String)
    ensures
        is_identifier(id@),
{
    uuid::Uuid::new_v4().to_string()
}

/// `PathBuf::from` on a string: the path holds that text.
#[verifier::external_body]
pub(crate) fn path_from(text: &str) -> (path: PathBuf)
    ensures
        path_text(path) == text@,
{
    PathBuf::from(text)
}

/// `Path::join`: the path that results is named by [`joined_text`].
#[verifier::external_body]
pub(crate) fn path_join(base: &PathBuf, part: &str) -> (path: PathBuf)
    ensures
        path_text(path) == joined_text(path_text(*base), part@),
{
    base.join(part)
}

/// `Engine::decode` of `base64::engine::general_purpose::STANDARD`: the bytes
/// that `text` encodes, or the error where it encodes none.
#[verifier::external_body]
pub(crate) fn decode_base64(text: &str) -> (decoded: Result<Vec<u8>, base64::DecodeError>)
    ensures
        match decoded {
            Ok(bytes) => base64_decoded(text@) == Some(bytes@),
            Err(_) => base64_decoded(text@) is None,
        },
{
    base64::engine::general_purpose::STANDARD.decode(text)
}

/// `comrak::markdown_to_html_with_plugins` with default options and the
/// `syntect` highlighter in its "Solarized (dark)" theme.
#[verifier::external_body]
pub(crate) fn markdown_to_html(markdown: &str) -> (html: String)
    ensures
        html@ == markdown_html(markdown@),
{
    let adapter = comrak::plugins::syntect::SyntectAdapter::new(Some("Solarized (dark)"));
    let options = comrak::Options::default();
    let mut plugins = comrak::Plugins::default();
    plugins.render.codefence_syntax_highlighter = Some(&adapter);
    comrak::markdown_to_html_with_plugins(markdown, &options, &plugins)
}

/// `Sender::new`: the sending half of a new channel that keeps `capacity`
/// events for its subscribers. The call panics on a capacity of zero or above
/// `usize::MAX / 2`, which `requires` leaves out.
#[verifier::external_body]
pub(crate) fn channel_open(capacity: usize) -> Sender<AssistantEvent>
    requires
        0 < capacity <= usize::MAX / 2,
{
    Sender::new(capacity)
}

/// `Sender::clone`: another handle of the same channel.
#[verifier::external_body]
pub(crate) fn channel_handle(sender: &Sender<AssistantEvent>) -> Sender<AssistantEvent> {
    sender.clone()
}

/// `Sender::send`: the number of subscribers that the event was queued for,
/// which is at least one, or `None` where the channel has no subscriber and
/// the event is dropped. The number depends on who is subscribed when the
/// call is made.
#[verifier::external_body]
pub(crate) fn channel_send(sender: &Sender<AssistantEvent>, event: AssistantEvent) -> (queued:
    Option<usize>)
    ensures
        queued matches Some(subscribers) ==> subscribers >= 1,
{
    sender.send(event).ok()
}

/// `Sender::subscribe`: a subscriber that receives the events sent after the
/// call. The call panics once the channel has `usize::MAX / 4` subscribers,
/// more than can exist.
#[verifier::external_body]
pub(crate) fn channel_subscribe(sender: &Sender<AssistantEvent>) -> Receiver<AssistantEvent> {
    sender.subscribe()
}

/// `Receiver::try_recv`: the next event, or why there is none. A subscriber
/// that lagged is told how many events it missed, which is at least one.
#[verifier::external_body]
pub(crate) fn channel_try_recv(receiver: &mut Receiver<AssistantEvent>) -> (received: Received)
    ensures
        received matches Received::Lagged(missed) ==> missed >= 1,
{
    match receiver.try_recv() {
        Ok(event) => Received::Event(event),
        Err(TryRecvError::Empty) => Received::Empty,
        Err(TryRecvError::Closed) => Received::Closed,
        Err(TryRecvError::Lagged(missed)) => Received::Lagged(missed),
    }
}

/// `DashMap::new`: a map that holds nothing.
#[verifier::external_body]
pub(crate) fn map_new() -> (made: DashMap<String, Bus>)
    ensures
        entries(made).dom() == Set::<Seq<char>>::empty(),
{
    DashMap::new()
}

/// `DashMap::len`: the number of entries.
#[verifier::external_body]
pub(crate) fn map_len(map: &DashMap<String, Bus>) -> (count: usize)
    ensures
        count == entries(*map).dom().len(),
{
    map.len()
}

/// `DashMap::get`: a handle of the bus stored under `key`, if one is.
#[verifier::external_body]
pub(crate) fn map_get(map: &DashMap<String, Bus>, key: &str) -> (found: Option<Bus>)
    ensures
        match found {
            Some(bus) => entries(*map).contains_key(key@) && entries(*map)[key@] == bus.serial(),
            None => !entries(*map).contains_key(key@),
        },
{
    map.get(key).map(|entry| entry.value().handle())
}

/// `DashMap::insert`: `bus` is stored under `key`, in place of what was
/// there; the other entries stay. The call does not unwind: hashing and
/// comparing `String` keys cannot panic.
#[verifier::external_body]
pub(crate) fn map_insert(map: &mut DashMap<String, Bus>, key: String, bus: Bus)
    ensures
        entries(*final(map)) == entries(*old(map)).insert(key@, bus.serial()),
    no_unwind
{
    map.insert(key, bus);
}

} // verus!
