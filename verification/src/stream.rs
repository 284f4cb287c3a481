//! The decoder of a completion stream. The transport hands over bytes in
//! chunks of any size; the stream is made of lines, and a line may carry one
//! fragment of the answer. The decoder keeps what is left of an unfinished
//! line from one chunk to the next.

use crate::json::{item_of, json_of, member_of, parse, text_of, Json};
use crate::message::{events_view, AgentEvent, EventKind, EventModel};
use crate::text::{chars_of, has_at, matches_at, same_chars, string_of_range, trim, trimmed};
use vstd::prelude::*;
use vstd::string::StringExecFns;

verus! {

/// The text that a sequence of bytes stands for, with the replacement
/// character wherever the bytes are no UTF-8.
pub uninterp spec fn utf8_lossy(bytes: Seq<u8>) -> Seq<char>;

/// `String::from_utf8_lossy`: the text of the bytes, decoded as UTF-8 with
/// each invalid sequence replaced by U+FFFD. Nothing here is proved; the
/// contract claims only that the text is a function of the bytes.
#[verifier::external_body]
pub(crate) fn lossy_text(bytes: &Vec<u8>) -> (r: String)
    ensures
        r@ == utf8_lossy(bytes@),
{
    String::from_utf8_lossy(bytes).into_owned()
}

/// The marker that begins a data line.
pub open spec fn data_prefix() -> Seq<char> {
    "data: "@
}

/// The payload that says that the stream is complete.
pub open spec fn done_marker() -> Seq<char> {
    "[DONE]"@
}

/// The fragment that a decoded envelope carries: the text at
/// `choices[0].delta.content`, where the envelope has one there.
pub open spec fn delta_content(envelope: Json) -> Option<Seq<char>> {
    text_of(
        member_of(
            member_of(item_of(member_of(Some(envelope), "choices"@), 0), "delta"@),
            "content"@,
        ),
    )
}

/// The payload of a line: what follows the marker of a data line, once the
/// line is trimmed. Other lines, blank ones among them, carry none.
pub open spec fn payload_of(line: Seq<char>) -> Option<Seq<char>> {
    let t = trimmed(line);
    if has_at(t, 0, data_prefix()) {
        Some(t.subrange(data_prefix().len() as int, t.len() as int))
    } else {
        None
    }
}

/// The fragment that a payload carries. The completion marker carries none,
/// nor does a payload that is no JSON or holds no text in the expected place.
pub open spec fn token_of_payload(payload: Seq<char>) -> Option<Seq<char>> {
    if payload == done_marker() {
        None
    } else {
        match json_of(payload) {
            Some(envelope) => delta_content(envelope),
            None => None,
        }
    }
}

/// The fragment that a line of the stream carries, the line given without
/// the newline that ends it.
pub open spec fn token_of_line(line: Seq<u8>) -> Option<Seq<char>> {
    match payload_of(utf8_lossy(line)) {
        Some(payload) => token_of_payload(payload),
        None => None,
    }
}

/// The unfinished line and the fragment that come of one more byte: a
/// newline ends the line, any other byte joins it.
pub open spec fn take_byte(pending: Seq<u8>, byte: u8) -> (Seq<u8>, Option<Seq<char>>) {
    if byte == 0x0A {
        (Seq::empty(), token_of_line(pending))
    } else {
        (pending.push(byte), None)
    }
}

/// `tokens`, with one more where there is one.
pub open spec fn with_token(tokens: Seq<Seq<char>>, token: Option<Seq<char>>) -> Seq<Seq<char>> {
    match token {
        Some(t) => tokens.push(t),
        None => tokens,
    }
}

/// The unfinished line and the fragments, in order, that come of the bytes
/// of `chunk` after the unfinished line `pending`.
pub open spec fn feed_bytes(pending: Seq<u8>, chunk: Seq<u8>) -> (Seq<u8>, Seq<Seq<char>>)
    decreases chunk.len(),
{
    if chunk.len() == 0 {
        (pending, Seq::empty())
    } else {
        let before = feed_bytes(pending, chunk.drop_last());
        let last = take_byte(before.0, chunk.last());
        (last.0, with_token(before.1, last.1))
    }
}

/// The fragments, one after the other.
pub open spec fn concat(tokens: Seq<Seq<char>>) -> Seq<char>
    decreases tokens.len(),
{
    if tokens.len() == 0 {
        Seq::empty()
    } else {
        concat(tokens.drop_last()) + tokens.last()
    }
}

/// The chunks, one after the other.
pub open spec fn flatten(chunks: Seq<Seq<u8>>) -> Seq<u8>
    decreases chunks.len(),
{
    if chunks.len() == 0 {
        Seq::empty()
    } else {
        flatten(chunks.drop_last()) + chunks.last()
    }
}

/// The token events that report the fragments, in order.
pub open spec fn token_events(tokens: Seq<Seq<char>>) -> Seq<EventModel> {
    Seq::new(tokens.len(), |i: int| EventModel { kind: EventKind::Token, content: tokens[i] })
}

/// A decoder as contracts see it.
pub struct DecoderModel {
    /// The bytes of the line that is not finished yet.
    pub pending: Seq<u8>,
    /// The text of all fragments so far.
    pub text: Seq<char>,
}

impl DecoderModel {
    /// A decoder that has seen nothing.
    pub open spec fn fresh() -> DecoderModel {
        DecoderModel { pending: Seq::empty(), text: Seq::empty() }
    }

    /// The decoder after `chunk`.
    pub open spec fn feed(self, chunk: Seq<u8>) -> DecoderModel {
        let fed = feed_bytes(self.pending, chunk);
        DecoderModel { pending: fed.0, text: self.text + concat(fed.1) }
    }

    /// The fragments that `chunk` completes.
    pub open spec fn tokens(self, chunk: Seq<u8>) -> Seq<Seq<char>> {
        feed_bytes(self.pending, chunk).1
    }

    /// The decoder after the chunks `chunks`, fed in order.
    pub open spec fn feed_all(self, chunks: Seq<Seq<u8>>) -> DecoderModel
        decreases chunks.len(),
    {
        if chunks.len() == 0 {
            self
        } else {
            self.feed_all(chunks.drop_last()).feed(chunks.last())
        }
    }

    /// The fragments that the chunks `chunks` complete, in order.
    pub open spec fn tokens_all(self, chunks: Seq<Seq<u8>>) -> Seq<Seq<char>>
        decreases chunks.len(),
    {
        if chunks.len() == 0 {
            Seq::empty()
        } else {
            self.tokens_all(chunks.drop_last()) + self.feed_all(chunks.drop_last()).tokens(
                chunks.last(),
            )
        }
    }
}

/// The text of two runs of fragments is the text of the first followed by
/// the text of the second.
pub proof fn lemma_concat_add(a: Seq<Seq<char>>, b: Seq<Seq<char>>)
    ensures
        concat(a + b) == concat(a) + concat(b),
    decreases b.len(),
{
    if b.len() > 0 {
        lemma_concat_add(a, b.drop_last());
        assert((a + b).drop_last() =~= a + b.drop_last());
    }
}

/// Feeding two chunks one after the other is feeding them as one: the same
/// line stays unfinished, and the same fragments come out in the same order.
pub proof fn lemma_feed_bytes_add(pending: Seq<u8>, a: Seq<u8>, b: Seq<u8>)
    ensures
        feed_bytes(pending, a + b).0 == feed_bytes(feed_bytes(pending, a).0, b).0,
        feed_bytes(pending, a + b).1 == feed_bytes(pending, a).1 + feed_bytes(
            feed_bytes(pending, a).0,
            b,
        ).1,
    decreases b.len(),
{
    if b.len() > 0 {
        lemma_feed_bytes_add(pending, a, b.drop_last());
        assert((a + b).drop_last() =~= a + b.drop_last());
    }
}

/// However the transport cuts the stream into chunks, the decoder ends in
/// the state, and gives the fragments in the order, that the whole stream
/// fed as one chunk would give.
pub proof fn lemma_chunking_is_immaterial(start: DecoderModel, chunks: Seq<Seq<u8>>)
    ensures
        start.feed_all(chunks) == start.feed(flatten(chunks)),
        start.tokens_all(chunks) == start.tokens(flatten(chunks)),
    decreases chunks.len(),
{
    if chunks.len() > 0 {
        let front = chunks.drop_last();
        lemma_chunking_is_immaterial(start, front);
        lemma_feed_bytes_add(start.pending, flatten(front), chunks.last());
        let a = feed_bytes(start.pending, flatten(front));
        let b = feed_bytes(a.0, chunks.last());
        lemma_concat_add(a.1, b.1);
        assert(start.text + concat(a.1) + concat(b.1) =~= start.text + (concat(a.1) + concat(
            b.1,
        )));
    }
}

/// The text that a decoder has gathered is the text of the fragments that it
/// gave, in the order in which it gave them.
pub proof fn lemma_text_is_tokens(start: DecoderModel, chunks: Seq<Seq<u8>>)
    ensures
        start.feed_all(chunks).text == start.text + concat(start.tokens_all(chunks)),
    decreases chunks.len(),
{
    if chunks.len() > 0 {
        let front = chunks.drop_last();
        lemma_text_is_tokens(start, front);
        let more = start.feed_all(front).tokens(chunks.last());
        lemma_concat_add(start.tokens_all(front), more);
    }
}

/// The fragment that a decoded envelope carries.
pub fn delta_of(envelope: &Json) -> (r: Option<String>)
    ensures
        match r {
            Some(s) => delta_content(*envelope) == Some(s@),
            None => delta_content(*envelope).is_none(),
        },
{
    let choices = match envelope.get("choices") {
        Some(j) => j,
        None => {
            return None;
        },
    };
    let first = match choices.at(0) {
        Some(j) => j,
        None => {
            return None;
        },
    };
    let delta = match first.get("delta") {
        Some(j) => j,
        None => {
            return None;
        },
    };
    let content = match delta.get("content") {
        Some(j) => j,
        None => {
            return None;
        },
    };
    match content.as_str() {
        Some(s) => Some(s.to_owned()),
        None => None,
    }
}

/// The payload of a line of the stream.
pub fn payload(line: &str) -> (r: Option<String>)
    ensures
        match r {
            Some(s) => payload_of(line@) == Some(s@),
            None => payload_of(line@).is_none(),
        },
{
    let t = trim(&chars_of(line));
    let prefix = chars_of("data: ");
    if matches_at(&t, 0, &prefix) {
        Some(string_of_range(&t, prefix.len(), t.len()))
    } else {
        None
    }
}

/// The fragment that a payload carries.
pub fn token(payload: &str) -> (r: Option<String>)
    ensures
        match r {
            Some(s) => token_of_payload(payload@) == Some(s@),
            None => token_of_payload(payload@).is_none(),
        },
{
    if same_chars(&chars_of(payload), &chars_of("[DONE]")) {
        return None;
    }
    match parse(payload) {
        Some(envelope) => delta_of(&envelope),
        None => None,
    }
}

/// The fragment that a line of the stream carries.
pub fn line_token(line: &Vec<u8>) -> (r: Option<String>)
    ensures
        match r {
            Some(s) => token_of_line(line@) == Some(s@),
            None => token_of_line(line@).is_none(),
        },
{
    let text = lossy_text(line);
    match payload(text.as_str()) {
        Some(p) => token(p.as_str()),
        None => None,
    }
}

/// The decoder of one completion stream.
pub struct StreamDecoder {
    pending: Vec<u8>,
    text: String,
}

impl View for StreamDecoder {
    type V = DecoderModel;

    closed spec fn view(&self) -> DecoderModel {
        DecoderModel { pending: self.pending@, text: self.text@ }
    }
}

impl StreamDecoder {
    /// A decoder that has seen nothing.
    pub fn new() -> (r: Self)
        ensures
            r@ == DecoderModel::fresh(),
    {
        StreamDecoder { pending: Vec::new(), text: String::new() }
    }

    /// Takes the next chunk of the stream, and gives one token event for each
    /// fragment that the chunk completes, in the order of the stream.
    pub fn feed(&mut self, chunk: &[u8]) -> (events: Vec<AgentEvent>)
        ensures
            final(self)@ == old(self)@.feed(chunk@),
            events_view(events@) == token_events(old(self)@.tokens(chunk@)),
    {
        let ghost start = self.pending@;
        let ghost text = self.text@;
        let mut events: Vec<AgentEvent> = Vec::new();
        let mut i: usize = 0;
        while i < chunk.len()
            invariant
                i <= chunk.len(),
                self.pending@ == feed_bytes(start, chunk@.take(i as int)).0,
                self.text@ == text + concat(feed_bytes(start, chunk@.take(i as int)).1),
                events_view(events@) == token_events(feed_bytes(start, chunk@.take(i as int)).1),
            decreases chunk.len() - i,
        {
            let byte = chunk[i];
            let ghost before = feed_bytes(start, chunk@.take(i as int));
            proof {
                assert(chunk@.take(i + 1).drop_last() =~= chunk@.take(i as int));
            }
            if byte == 0x0A {
                match line_token(&self.pending) {
                    Some(t) => {
                        self.text.append(t.as_str());
                        let event = AgentEvent { kind: EventKind::Token, content: t };
                        proof {
                            let more = events_view(events@.push(event));
                            let wanted = token_events(before.1.push(t@));
                            assert(events_view(events@).len() == before.1.len());
                            assert forall|k: int| 0 <= k < more.len() implies more[k]
                                == wanted[k] by {
                                if k < events@.len() {
                                    assert(events_view(events@)[k] == token_events(before.1)[k]);
                                }
                            }
                            assert(before.1.push(t@).drop_last() =~= before.1);
                        }
                        events.push(event);
                    },
                    None => {},
                }
                self.pending = Vec::new();
            } else {
                self.pending.push(byte);
            }
            i += 1;
        }
        assert(chunk@.take(chunk.len() as int) =~= chunk@);
        events
    }

    /// The text gathered so far.
    pub fn text(&self) -> (r: &str)
        ensures
            r@ == self@.text,
    {
        self.text.as_str()
    }

    /// Ends the stream and gives the full text: all fragments in the order
    /// in which they came. A last line without its newline carries nothing.
    pub fn finish(self) -> (r: String)
        ensures
            r@ == self@.text,
    {
        self.text
    }
}

} // verus!
