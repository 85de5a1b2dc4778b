//! Delivery of replies: splitting, retrying, and the record that is kept.

use crate::error::FrankClawError;
use crate::json::{
    items_view, lemma_items, number, optional_text, optional_unsigned, JsonObject, JsonValue,
    JsonView,
};
use crate::message::{clone_attachments, clone_text, OutboundMessage, OutboundView, SendResult};
use crate::text::{
    chars_of, is_blank, is_white, lemma_solid_add, lemma_trimmed, lemma_trimmed_start,
    lemma_words_broken, lemma_words_cut, lemma_words_trimmed, lemma_words_trimmed_start, solid,
    str_eq, trimmed, trimmed_start, until_white, words_of,
};
use crate::time::{
    civil, format_instant, instant_of, instant_text, is_representable, parse_instant, representable,
};
use crate::types::Timestamp;
use vstd::prelude::*;
use vstd::string::*;

verus! {

/// The number of times that one piece of a message is tried.
pub const MAX_OUTBOUND_ATTEMPTS: usize = 3;

/// The longest wait between two tries, in seconds.
pub const MAX_RETRY_DELAY_SECS: u64 = 30;

/// The longest message that a channel takes, in characters.
pub open spec fn channel_limit(channel: Seq<char>) -> Option<usize> {
    if channel == "discord"@ {
        Some(1900usize)
    } else if channel == "telegram"@ || channel == "slack"@ {
        Some(3500usize)
    } else if channel == "signal"@ {
        Some(3000usize)
    } else {
        None
    }
}

/// The longest message that a channel takes, in characters.
pub fn max_chars_for_channel(channel_id: &str) -> (r: Option<usize>)
    ensures
        r == channel_limit(channel_id@),
{
    if str_eq(channel_id, "discord") {
        Some(1900)
    } else if str_eq(channel_id, "telegram") {
        Some(3500)
    } else if str_eq(channel_id, "slack") {
        Some(3500)
    } else if str_eq(channel_id, "signal") {
        Some(3000)
    } else {
        None
    }
}

/// Where the first chunk of a long text ends: at the last white space among
/// its first `max` characters, not counting the first; else after `max`.
pub open spec fn chunk_end(s: Seq<char>, max: int) -> int {
    last_white(s, max - 1, max)
}

/// The last index up to `i`, above zero, with white space; else `other`.
pub open spec fn last_white(s: Seq<char>, i: int, other: int) -> int
    decreases i,
{
    if i <= 0 {
        other
    } else if is_white(s[i]) {
        i
    } else {
        last_white(s, i - 1, other)
    }
}

/// The chunks of a text that begins with a solid character.
pub open spec fn chunks(s: Seq<char>, max: int) -> Seq<Seq<char>>
    decreases s.len(),
{
    if s.len() == 0 || max <= 0 {
        Seq::empty()
    } else if s.len() <= max {
        seq![s]
    } else {
        let end = chunk_end(s, max);
        let rest = trimmed_start(s.skip(end));
        if rest.len() < s.len() {
            seq![trimmed(s.take(end))] + chunks(rest, max)
        } else {
            Seq::empty()
        }
    }
}

/// The pieces that a text is sent in: chunks of at most `max` characters,
/// broken at white space where there is some. A text without solid characters
/// goes out as it is, and so does any text where `max` is zero.
pub open spec fn text_pieces(text: Seq<char>, max: int) -> Seq<Seq<char>> {
    if max == 0 || is_blank(text) {
        seq![text]
    } else {
        chunks(trimmed(text), max)
    }
}

proof fn lemma_last_white(s: Seq<char>, i: int, other: int)
    requires
        i < s.len(),
    ensures
        last_white(s, i, other) == other || 0 < last_white(s, i, other) <= i && is_white(
            s[last_white(s, i, other)],
        ),
    decreases i,
{
    if i > 0 && !is_white(s[i]) {
        lemma_last_white(s, i - 1, other);
    }
}

/// What one step of the splitting does.
proof fn lemma_chunk_step(s: Seq<char>, max: int)
    requires
        0 < max < s.len(),
        !is_white(s[0]),
    ensures
        0 < chunk_end(s, max) <= max,
        trimmed(s.take(chunk_end(s, max))).len() > 0,
        trimmed(s.take(chunk_end(s, max))).len() <= max,
        trimmed_start(s.skip(chunk_end(s, max))).len() < s.len(),
        solid(s) == solid(trimmed(s.take(chunk_end(s, max)))) + solid(
            trimmed_start(s.skip(chunk_end(s, max))),
        ),
{
    lemma_last_white(s, max - 1, max);
    let end = chunk_end(s, max);
    lemma_trimmed(s.take(end));
    lemma_trimmed_start(s.skip(end));
    assert(s =~= s.take(end) + s.skip(end));
    lemma_solid_add(s.take(end), s.skip(end));
}

/// The chunks put together again.
pub open spec fn joined(pieces: Seq<Seq<char>>) -> Seq<char>
    decreases pieces.len(),
{
    if pieces.len() == 0 {
        Seq::empty()
    } else {
        pieces[0] + joined(pieces.drop_first())
    }
}

proof fn lemma_chunks(s: Seq<char>, max: int)
    requires
        0 < max,
        s.len() > 0 ==> !is_white(s[0]),
        s.len() > 0 ==> !is_white(s.last()),
    ensures
        forall|i: int|
            0 <= i < chunks(s, max).len() ==> 0 < (#[trigger] chunks(s, max)[i]).len() <= max
                && !is_white(chunks(s, max)[i][0]) && !is_white(chunks(s, max)[i].last()),
        solid(joined(chunks(s, max))) == solid(s),
        s.len() > 0 ==> chunks(s, max).len() > 0,
    decreases s.len(),
{
    if s.len() == 0 {
    } else if s.len() <= max {
        assert(chunks(s, max).drop_first() =~= Seq::empty());
        assert(joined(chunks(s, max)) == s + joined(Seq::<Seq<char>>::empty()));
        assert(s + Seq::<char>::empty() =~= s);
    } else {
        let end = chunk_end(s, max);
        lemma_chunk_step(s, max);
        let head = trimmed(s.take(end));
        let rest = trimmed_start(s.skip(end));
        lemma_trimmed(s.take(end));
        lemma_trimmed_start(s.skip(end));
        lemma_chunks(rest, max);
        let all = chunks(s, max);
        assert(all =~= seq![head] + chunks(rest, max));
        assert(all.drop_first() =~= chunks(rest, max));
        lemma_solid_add(head, joined(chunks(rest, max)));
        assert forall|i: int| 0 <= i < all.len() implies 0 < (#[trigger] all[i]).len() <= max
            && !is_white(all[i][0]) && !is_white(all[i].last()) by {
            if i > 0 {
                assert(all[i] == chunks(rest, max)[i - 1]);
            }
        }
    }
}

/// Splitting a text that holds more than white space yields at least one
/// piece; every piece is within the limit, is not empty, and begins and ends
/// with a solid character; and no solid character is lost, added or moved.
pub proof fn law_split_keeps_text(text: Seq<char>, max: int)
    requires
        0 < max,
        !is_blank(text),
    ensures
        text_pieces(text, max).len() > 0,
        forall|i: int|
            0 <= i < text_pieces(text, max).len() ==> 0 < (#[trigger] text_pieces(
                text,
                max,
            )[i]).len() <= max && !is_white(text_pieces(text, max)[i][0]) && !is_white(
                text_pieces(text, max)[i].last(),
            ),
        solid(joined(text_pieces(text, max))) == solid(text),
{
    lemma_trimmed(text);
    lemma_chunks(trimmed(text), max);
}

proof fn lemma_no_white(s: Seq<char>, i: int, other: int, k: int)
    requires
        last_white(s, i, other) == other,
        i < other,
        0 < k <= i,
    ensures
        !is_white(s[k]),
    decreases i,
{
    if k < i {
        lemma_no_white(s, i - 1, other, k);
    }
}

/// A word that fits stands whole in one of the chunks.
proof fn lemma_chunk_words(s: Seq<char>, max: int, word: Seq<char>) -> (i: int)
    requires
        0 < max,
        s.len() > 0 ==> !is_white(s[0]),
        words_of(s).contains(word),
        word.len() <= max,
    ensures
        0 <= i < chunks(s, max).len(),
        words_of(chunks(s, max)[i]).contains(word),
    decreases s.len(),
{
    if s.len() == 0 {
        lemma_words_trimmed(s);
        assert(words_of(s) =~= Seq::empty());
        0
    } else if s.len() <= max {
        0
    } else {
        let end = chunk_end(s, max);
        lemma_chunk_step(s, max);
        lemma_last_white(s, max - 1, max);
        let head = s.take(end);
        let tail = s.skip(end);
        let rest = trimmed_start(tail);
        lemma_trimmed_start(tail);
        lemma_words_trimmed(head);
        lemma_words_trimmed_start(tail);
        assert(s =~= head + tail);
        assert(tail[0] == s[end]);
        let all = chunks(s, max);
        assert(all == seq![trimmed(head)] + chunks(rest, max));
        if is_white(s[end]) {
            lemma_words_cut(head, tail);
            let k = choose|k: int| 0 <= k < words_of(s).len() && words_of(s)[k] == word;
            if k < words_of(head).len() {
                assert(words_of(head)[k] == word);
            } else {
                assert(words_of(tail)[k - words_of(head).len()] == word);
            }
        } else {
            assert forall|i: int| 0 <= i <= max implies !is_white(#[trigger] s[i]) by {
                if 0 < i < max {
                    lemma_no_white(s, max - 1, max, i);
                }
            }
            lemma_words_broken(s, max);
            let others = choose|others: Seq<Seq<char>>|
                words_of(s) == seq![until_white(s)] + others && words_of(s.skip(max)) == seq![
                    until_white(s.skip(max)),
                ] + others;
            let k = choose|k: int| 0 <= k < words_of(s).len() && words_of(s)[k] == word;
            assert(words_of(s)[0] == until_white(s));
            assert(words_of(s)[k] == others[k - 1]);
            assert(words_of(tail)[k] == word);
        }
        if words_of(head).contains(word) {
            assert(all[0] == trimmed(head));
            0
        } else {
            let i = lemma_chunk_words(rest, max, word);
            assert(all[i + 1] == chunks(rest, max)[i]);
            i + 1
        }
    }
}

/// A word of a text that is within the limit is not broken: it is a word of one
/// of the pieces.
pub proof fn law_words_stay_whole(text: Seq<char>, max: int, word: Seq<char>)
    requires
        0 < max,
        words_of(text).contains(word),
        word.len() <= max,
    ensures
        exists|i: int|
            0 <= i < text_pieces(text, max).len() && words_of(
                #[trigger] text_pieces(text, max)[i],
            ).contains(word),
{
    lemma_words_trimmed(text);
    lemma_trimmed(text);
    if is_blank(text) {
        assert(text_pieces(text, max)[0] == text);
    } else {
        let i = lemma_chunk_words(trimmed(text), max, word);
        assert(words_of(text_pieces(text, max)[i]).contains(word));
    }
}

/// The pieces that a text is sent in.
pub fn split_text(text: &str, max_chars: usize) -> (r: Vec<String>)
    ensures
        r.deep_view() == text_pieces(text@, max_chars as int),
{
    let mut out: Vec<String> = Vec::new();
    let mut remaining = text.trim();
    proof {
        lemma_trimmed(text@);
        if max_chars > 0 {
            assert(out.deep_view() + chunks(remaining@, max_chars as int) =~= chunks(
                trimmed(text@),
                max_chars as int,
            ));
        }
    }
    while max_chars > 0 && !remaining.is_empty()
        invariant
            remaining@.len() > 0 ==> !is_white(remaining@[0]),
            max_chars > 0 ==> out.deep_view() + chunks(remaining@, max_chars as int) == chunks(
                trimmed(text@),
                max_chars as int,
            ),
            max_chars == 0 ==> out@.len() == 0,
            out@.len() == 0 ==> remaining@ == trimmed(text@),
        decreases remaining@.len(),
    {
        let ghost max = max_chars as int;
        let count: usize = remaining.unicode_len();
        let ghost before = out.deep_view();
        if count <= max_chars {
            out.push(remaining.to_owned());
            proof {
                assert(out.deep_view() =~= before.push(remaining@));
                assert(out.deep_view() + chunks(Seq::<char>::empty(), max) =~= before + chunks(
                    remaining@,
                    max,
                ));
            }
            remaining = "";
            proof {
                reveal_strlit("");
                assert(remaining@ =~= Seq::<char>::empty());
            }
        } else {
            let v = chars_of(remaining);
            let mut end: usize = max_chars;
            let mut i: usize = max_chars - 1;
            while i > 0
                invariant_except_break
                    end == max_chars,
                invariant
                    0 <= i < max_chars < v@.len(),
                    v@ == remaining@,
                    last_white(v@, i as int, max_chars as int) == chunk_end(
                        v@,
                        max_chars as int,
                    ),
                ensures
                    end == chunk_end(v@, max_chars as int),
                decreases i,
            {
                if v[i].is_whitespace() {
                    end = i;
                    break;
                }
                i = i - 1;
            }
            proof {
                lemma_chunk_step(remaining@, max);
                lemma_trimmed_start(remaining@.skip(end as int));
            }
            let chunk = remaining.substring_char(0, end).trim();
            out.push(chunk.to_owned());
            let rest = remaining.substring_char(end, count).trim_start();
            proof {
                assert(remaining@.subrange(0, end as int) =~= remaining@.take(end as int));
                assert(remaining@.subrange(end as int, count as int) =~= remaining@.skip(
                    end as int,
                ));
                assert(out.deep_view() =~= before.push(chunk@));
                assert(out.deep_view() + chunks(rest@, max) =~= before + chunks(remaining@, max));
            }
            remaining = rest;
        }
    }
    if out.len() == 0 {
        out.push(text.to_owned());
        assert(out.deep_view() =~= seq![text@]);
    } else {
        assert(out.deep_view() + Seq::<Seq<char>>::empty() =~= out.deep_view());
    }
    out
}

/// The messages that go out for one message: the message itself, or one for
/// each piece of its text when it is too long and carries no attachments. Only
/// the first one answers the message that is being replied to.
pub open spec fn outbound_pieces(m: OutboundView) -> Seq<OutboundView> {
    let limit = channel_limit(m.channel);
    if limit is None || m.attachments.len() > 0 || m.text.len() <= limit->0 {
        seq![m]
    } else {
        let pieces = text_pieces(m.text, limit->0 as int);
        Seq::new(
            pieces.len(),
            |i: int|
                OutboundView {
                    text: pieces[i],
                    reply_to: if i == 0 {
                        m.reply_to
                    } else {
                        None
                    },
                    ..m
                },
        )
    }
}

/// The messages that go out for one message.
pub fn split_outbound_message(outbound: &OutboundMessage) -> (r: Vec<OutboundMessage>)
    ensures
        r.deep_view() == outbound_pieces(outbound@),
{
    let limit = max_chars_for_channel(outbound.channel.as_str());
    let mut out: Vec<OutboundMessage> = Vec::new();
    let max: usize = match limit {
        Some(max) => max,
        None => {
            out.push(outbound.clone());
            assert(out.deep_view() =~= seq![outbound@]);
            return out;
        },
    };
    if outbound.attachments.len() > 0 || outbound.text.as_str().unicode_len() <= max {
        out.push(outbound.clone());
        assert(out.deep_view() =~= seq![outbound@]);
        return out;
    }
    let pieces = split_text(outbound.text.as_str(), max);
    assert(outbound@.attachments.len() == 0);
    let mut i: usize = 0;
    while i < pieces.len()
        invariant
            i <= pieces@.len(),
            pieces.deep_view() == text_pieces(outbound.text@, max as int),
            outbound_pieces(outbound@).len() == pieces@.len(),
            forall|k: int|
                0 <= k < pieces@.len() ==> #[trigger] outbound_pieces(outbound@)[k] == (
                OutboundView {
                    text: pieces@[k]@,
                    reply_to: if k == 0 {
                        outbound@.reply_to
                    } else {
                        None
                    },
                    ..outbound@
                }),
            out@.len() == i,
            forall|k: int| 0 <= k < i ==> (#[trigger] out@[k])@ == outbound_pieces(outbound@)[k],
        decreases pieces@.len() - i,
    {
        let piece = OutboundMessage {
            channel: outbound.channel.clone(),
            account_id: outbound.account_id.clone(),
            to: outbound.to.clone(),
            thread_id: clone_text(&outbound.thread_id),
            text: pieces[i].clone(),
            attachments: clone_attachments(&outbound.attachments),
            reply_to: if i == 0 {
                clone_text(&outbound.reply_to)
            } else {
                None
            },
        };
        assert(piece@ == outbound_pieces(outbound@)[i as int]);
        out.push(piece);
        i = i + 1;
    }
    assert(out.deep_view() =~= outbound_pieces(outbound@));
    out
}

/// Whatever goes out for a message goes to the same place, and only its first
/// part answers the message that is being replied to.
pub proof fn law_pieces_share_target(m: OutboundView)
    ensures
        forall|i: int|
            #![trigger outbound_pieces(m)[i]]
            0 <= i < outbound_pieces(m).len() ==> outbound_pieces(m)[i].channel == m.channel
                && outbound_pieces(m)[i].account_id == m.account_id && outbound_pieces(m)[i].to
                == m.to && outbound_pieces(m)[i].thread_id == m.thread_id && (i > 0
                ==> outbound_pieces(m)[i].reply_to is None) && (i == 0
                ==> outbound_pieces(m)[i].reply_to == m.reply_to),
{
}

/// On a channel with a limit, what goes out for a message that has a solid
/// character and no attachments fits the limit.
pub proof fn law_pieces_fit(m: OutboundView)
    requires
        channel_limit(m.channel) is Some,
        m.attachments.len() == 0,
        !is_blank(m.text),
    ensures
        outbound_pieces(m).len() > 0,
        forall|i: int|
            0 <= i < outbound_pieces(m).len() ==> (#[trigger] outbound_pieces(m)[i]).text.len()
                <= channel_limit(m.channel)->0,
{
    law_split_keeps_text(m.text, channel_limit(m.channel)->0 as int);
}

/// How far the delivery of a piece, or of a whole message, came.
#[derive(Clone, Copy, Debug, PartialEq, Eq, Structural)]
pub enum DeliveryStatus {
    Sent,
    RateLimited,
    Failed,
}

impl DeliveryStatus {
    /// The status as it is written down.
    pub open spec fn text(self) -> Seq<char> {
        match self {
            DeliveryStatus::Sent => "sent"@,
            DeliveryStatus::RateLimited => "rate_limited"@,
            DeliveryStatus::Failed => "failed"@,
        }
    }

    /// The status as it is written down.
    pub fn as_str(&self) -> (r: &'static str)
        ensures
            r@ == self.text(),
    {
        match self {
            DeliveryStatus::Sent => "sent",
            DeliveryStatus::RateLimited => "rate_limited",
            DeliveryStatus::Failed => "failed",
        }
    }
}

/// How the delivery of one piece went.
#[derive(Debug)]
pub struct DeliveryChunkRecord {
    pub text: String,
    pub status: DeliveryStatus,
    pub platform_message_id: Option<String>,
    pub attempts: usize,
    pub retry_after_secs: Option<u64>,
    pub error: Option<String>,
}

/// What a record of one piece says.
pub struct ChunkRecordView {
    pub text: Seq<char>,
    pub status: DeliveryStatus,
    pub platform_message_id: Option<Seq<char>>,
    pub attempts: nat,
    pub retry_after_secs: Option<u64>,
    pub error: Option<Seq<char>>,
}

impl View for DeliveryChunkRecord {
    type V = ChunkRecordView;

    open spec fn view(&self) -> ChunkRecordView {
        ChunkRecordView {
            text: self.text@,
            status: self.status,
            platform_message_id: self.platform_message_id.deep_view(),
            attempts: self.attempts as nat,
            retry_after_secs: self.retry_after_secs,
            error: self.error.deep_view(),
        }
    }
}

impl DeepView for DeliveryChunkRecord {
    type V = ChunkRecordView;

    open spec fn deep_view(&self) -> ChunkRecordView {
        self@
    }
}

/// Where the sending of one piece stands: the tries so far, and what the last
/// rate limit asked for.
#[derive(Clone, Copy, Debug, PartialEq, Eq, Structural)]
pub struct SendState {
    pub attempts: usize,
    pub last_retry_after: Option<u64>,
}

impl SendState {
    /// Before the first try.
    pub fn new() -> (r: SendState)
        ensures
            r == (SendState { attempts: 0, last_retry_after: None }),
    {
        SendState { attempts: 0, last_retry_after: None }
    }
}

/// What to do after a try.
#[derive(Debug)]
pub enum SendStep {
    /// The piece is dealt with.
    Done(DeliveryChunkRecord),
    /// The channel failed for good.
    GiveUp(FrankClawError),
    /// Wait, then try again.
    Retry { after_secs: u64, state: SendState },
}

/// The wait that a rate limit asks for, between one second and the longest
/// wait; the number of tries where it names none.
pub open spec fn retry_delay(retry_after_secs: Option<u64>, attempts: nat) -> int {
    let asked = match retry_after_secs {
        Some(n) => n as int,
        None => attempts as int,
    };
    if asked < 1 {
        1
    } else if asked > MAX_RETRY_DELAY_SECS {
        MAX_RETRY_DELAY_SECS as int
    } else {
        asked
    }
}

/// What a step after a try is.
pub enum StepView {
    Done(ChunkRecordView),
    GiveUp(FrankClawError),
    Retry(int, SendState),
}

impl View for SendStep {
    type V = StepView;

    open spec fn view(&self) -> StepView {
        match self {
            SendStep::Done(record) => StepView::Done(record@),
            SendStep::GiveUp(err) => StepView::GiveUp(*err),
            SendStep::Retry { after_secs, state } => StepView::Retry(*after_secs as int, *state),
        }
    }
}

/// What follows a try that ended in `outcome`.
pub open spec fn step_after(
    text: Seq<char>,
    state: SendState,
    outcome: Result<SendResult, FrankClawError>,
) -> StepView {
    let attempts = (state.attempts + 1) as usize;
    let last = attempts >= MAX_OUTBOUND_ATTEMPTS;
    match outcome {
        Ok(SendResult::Sent { platform_message_id }) => StepView::Done(
            ChunkRecordView {
                text,
                status: DeliveryStatus::Sent,
                platform_message_id: Some(platform_message_id@),
                attempts: attempts as nat,
                retry_after_secs: state.last_retry_after,
                error: None,
            },
        ),
        Ok(SendResult::RateLimited { retry_after_secs }) => if last {
            StepView::Done(
                ChunkRecordView {
                    text,
                    status: DeliveryStatus::RateLimited,
                    platform_message_id: None,
                    attempts: attempts as nat,
                    retry_after_secs,
                    error: Some("rate limited"@),
                },
            )
        } else {
            StepView::Retry(
                retry_delay(retry_after_secs, attempts as nat),
                SendState { attempts, last_retry_after: retry_after_secs },
            )
        },
        Ok(SendResult::Failed { reason }) => if last {
            StepView::Done(
                ChunkRecordView {
                    text,
                    status: DeliveryStatus::Failed,
                    platform_message_id: None,
                    attempts: attempts as nat,
                    retry_after_secs: None,
                    error: Some(reason@),
                },
            )
        } else {
            StepView::Retry(
                attempts as int,
                SendState { attempts, last_retry_after: state.last_retry_after },
            )
        },
        Err(err) => if last {
            StepView::GiveUp(err)
        } else {
            StepView::Retry(
                attempts as int,
                SendState { attempts, last_retry_after: state.last_retry_after },
            )
        },
    }
}

/// What to do after a try to send one piece: record it, give up, or wait and
/// try again. A piece is tried three times at most.
pub fn send_outbound_chunk(
    text: &str,
    state: SendState,
    outcome: Result<SendResult, FrankClawError>,
) -> (r: SendStep)
    requires
        state.attempts < MAX_OUTBOUND_ATTEMPTS,
    ensures
        r@ == step_after(text@, state, outcome),
{
    let attempts: usize = state.attempts + 1;
    let last = attempts >= MAX_OUTBOUND_ATTEMPTS;
    match outcome {
        Ok(SendResult::Sent { platform_message_id }) => SendStep::Done(
            DeliveryChunkRecord {
                text: text.to_owned(),
                status: DeliveryStatus::Sent,
                platform_message_id: Some(platform_message_id),
                attempts,
                retry_after_secs: state.last_retry_after,
                error: None,
            },
        ),
        Ok(SendResult::RateLimited { retry_after_secs }) => {
            if last {
                return SendStep::Done(
                    DeliveryChunkRecord {
                        text: text.to_owned(),
                        status: DeliveryStatus::RateLimited,
                        platform_message_id: None,
                        attempts,
                        retry_after_secs,
                        error: Some("rate limited".to_owned()),
                    },
                );
            }
            let asked: u64 = match retry_after_secs {
                Some(n) => n,
                None => attempts as u64,
            };
            let after_secs: u64 = if asked < 1 {
                1
            } else if asked > MAX_RETRY_DELAY_SECS {
                MAX_RETRY_DELAY_SECS
            } else {
                asked
            };
            SendStep::Retry {
                after_secs,
                state: SendState { attempts, last_retry_after: retry_after_secs },
            }
        },
        Ok(SendResult::Failed { reason }) => {
            if last {
                return SendStep::Done(
                    DeliveryChunkRecord {
                        text: text.to_owned(),
                        status: DeliveryStatus::Failed,
                        platform_message_id: None,
                        attempts,
                        retry_after_secs: None,
                        error: Some(reason),
                    },
                );
            }
            SendStep::Retry {
                after_secs: attempts as u64,
                state: SendState { attempts, last_retry_after: state.last_retry_after },
            }
        },
        Err(err) => {
            if last {
                return SendStep::GiveUp(err);
            }
            SendStep::Retry {
                after_secs: attempts as u64,
                state: SendState { attempts, last_retry_after: state.last_retry_after },
            }
        },
    }
}

/// How the delivery of a whole message went.
#[derive(Debug)]
pub struct DeliveryRecord {
    pub status: DeliveryStatus,
    pub platform_message_id: Option<String>,
    pub attempts: usize,
    pub retry_after_secs: Option<u64>,
    pub error: Option<String>,
    pub chunks: Vec<DeliveryChunkRecord>,
}

/// The identifier of the last piece that got one.
pub open spec fn last_id(records: Seq<ChunkRecordView>) -> Option<Seq<char>>
    decreases records.len(),
{
    if records.len() == 0 {
        None
    } else if records.last().platform_message_id is Some {
        records.last().platform_message_id
    } else {
        last_id(records.drop_last())
    }
}

/// The tries of all pieces.
pub open spec fn total_attempts(records: Seq<ChunkRecordView>) -> nat
    decreases records.len(),
{
    if records.len() == 0 {
        0
    } else {
        total_attempts(records.drop_last()) + records.last().attempts
    }
}

/// The delivery of a message as its pieces tell it. The last piece decides:
/// the ones before it were sent.
pub open spec fn delivery_tells(r: DeliveryRecord, records: Seq<ChunkRecordView>) -> bool {
    &&& r.chunks.deep_view() == records
    &&& r.attempts == total_attempts(records)
    &&& r.platform_message_id.deep_view() == last_id(records)
    &&& if records.len() == 0 {
        r.status == DeliveryStatus::Sent && r.retry_after_secs is None && r.error is None
    } else {
        &&& r.status == records.last().status
        &&& r.retry_after_secs == records.last().retry_after_secs
        &&& r.error.deep_view() == if records.last().status == DeliveryStatus::Sent {
            None
        } else {
            records.last().error
        }
    }
}

/// True when the records are those of the first pieces, in order, and all but
/// the last of them were sent.
pub open spec fn records_of(records: Seq<ChunkRecordView>, pieces: Seq<OutboundView>) -> bool {
    &&& records.len() <= pieces.len()
    &&& forall|i: int|
        0 <= i < records.len() ==> (#[trigger] records[i]).text == pieces[i].text && (i
            < records.len() - 1 ==> records[i].status == DeliveryStatus::Sent)
}

/// True of the record of a delivery that is over: it tells of the pieces that
/// were tried, and where it says that the message was sent, all of them were.
pub open spec fn delivery_of(r: DeliveryRecord, pieces: Seq<OutboundView>) -> bool {
    &&& delivery_tells(r, r.chunks.deep_view())
    &&& r.chunks@.len() > 0
    &&& records_of(r.chunks.deep_view(), pieces)
    &&& r.status == DeliveryStatus::Sent ==> r.chunks@.len() == pieces.len()
}

/// A message under delivery: its pieces, how often the next one was tried, and
/// the records of the ones before it, all of which were sent.
#[derive(Debug)]
pub struct Delivery {
    pub pieces: Vec<OutboundMessage>,
    pub state: SendState,
    pub record: DeliveryRecord,
}

/// What to do after a try.
#[derive(Debug)]
pub enum DeliveryStep {
    /// Send the piece that is next.
    Send(Delivery),
    /// Wait, then send the same piece again.
    Retry { after_secs: u64, delivery: Delivery },
    /// The delivery is over.
    Finished(DeliveryRecord),
    /// The channel failed for good.
    GiveUp(FrankClawError),
}

/// True when `step` is what follows a try of the next piece.
pub open spec fn delivery_follows(
    before: Delivery,
    outcome: Result<SendResult, FrankClawError>,
    step: DeliveryStep,
) -> bool {
    match step_after(before.next_text(), before.state, outcome) {
        StepView::Done(record) => {
            let records = before.record.chunks.deep_view().push(record);
            if record.status == DeliveryStatus::Sent && records.len() < before.pieces@.len() {
                &&& step matches DeliveryStep::Send(after)
                &&& after.wf()
                &&& after.pieces == before.pieces
                &&& after.state == (SendState { attempts: 0, last_retry_after: None })
                &&& delivery_tells(after.record, records)
            } else {
                step is Finished && delivery_tells(step->Finished_0, records)
            }
        },
        StepView::GiveUp(err) => step == DeliveryStep::GiveUp(err),
        StepView::Retry(wait, state) => {
            &&& step matches DeliveryStep::Retry { after_secs, delivery: after }
            &&& after_secs == wait
            &&& after.wf()
            &&& after == (Delivery { state, ..before })
        },
    }
}

proof fn lemma_chunk_count(s: Seq<char>, max: int)
    ensures
        chunks(s, max).len() <= s.len(),
    decreases s.len(),
{
    if s.len() > max && max > 0 {
        let rest = trimmed_start(s.skip(chunk_end(s, max)));
        if rest.len() < s.len() {
            lemma_chunk_count(rest, max);
        }
    }
}

/// A message has at least one piece, and at most one more than its text has
/// characters.
proof fn lemma_piece_count(m: OutboundView)
    ensures
        0 < outbound_pieces(m).len() <= m.text.len() + 1,
{
    let limit = channel_limit(m.channel);
    if limit is Some && m.attachments.len() == 0 && m.text.len() > limit->0 && !is_blank(m.text) {
        law_split_keeps_text(m.text, limit->0 as int);
        lemma_trimmed(m.text);
        lemma_chunk_count(trimmed(m.text), limit->0 as int);
    }
}

impl Delivery {
    /// The text of the piece that is next.
    pub open spec fn next_text(self) -> Seq<char> {
        self.pieces@[self.record.chunks@.len() as int].text@
    }

    /// True when a piece is next and can still be tried, and the record tells of
    /// the pieces before it, all of which were sent.
    pub open spec fn wf(self) -> bool {
        let records = self.record.chunks.deep_view();
        &&& records.len() < self.pieces@.len() <= usize::MAX / 4 + 1
        &&& records_of(records, self.pieces.deep_view())
        &&& delivery_tells(self.record, records)
        &&& self.record.status == DeliveryStatus::Sent
        &&& total_attempts(records) <= MAX_OUTBOUND_ATTEMPTS * records.len()
        &&& self.state.attempts < MAX_OUTBOUND_ATTEMPTS
    }

    /// A message before its first piece is sent.
    pub fn new(outbound: &OutboundMessage) -> (r: Delivery)
        requires
            outbound.text@.len() <= usize::MAX / 4,
        ensures
            r.wf(),
            r.pieces.deep_view() == outbound_pieces(outbound@),
            r.state == (SendState { attempts: 0, last_retry_after: None }),
            r.record.chunks@.len() == 0,
    {
        proof {
            lemma_piece_count(outbound@);
        }
        let pieces = split_outbound_message(outbound);
        let r = Delivery {
            pieces,
            state: SendState::new(),
            record: DeliveryRecord {
                status: DeliveryStatus::Sent,
                platform_message_id: None,
                attempts: 0,
                retry_after_secs: None,
                error: None,
                chunks: Vec::new(),
            },
        };
        assert(r.record.chunks.deep_view() =~= Seq::empty());
        assert(r.pieces.deep_view().len() == r.pieces@.len());
        r
    }

    /// The piece that is to be sent next.
    pub fn next(&self) -> (r: &OutboundMessage)
        requires
            self.wf(),
        ensures
            *r == self.pieces@[self.record.chunks@.len() as int],
    {
        &self.pieces[self.record.chunks.len()]
    }

    /// Notes how a try of the next piece went. A piece that was sent lets the
    /// one after it follow; anything else that does not call for another try
    /// ends the delivery, and the pieces after it are not tried.
    pub fn on_outcome(self, outcome: Result<SendResult, FrankClawError>) -> (r: DeliveryStep)
        requires
            self.wf(),
        ensures
            delivery_follows(self, outcome, r),
            r is Finished ==> delivery_of(r->Finished_0, self.pieces.deep_view()),
    {
        let ghost before = self.record.chunks.deep_view();
        let n: usize = self.record.chunks.len();
        let step = send_outbound_chunk(self.pieces[n].text.as_str(), self.state, outcome);
        let chunk = match step {
            SendStep::Done(chunk) => chunk,
            SendStep::GiveUp(err) => {
                return DeliveryStep::GiveUp(err);
            },
            SendStep::Retry { after_secs, state } => {
                return DeliveryStep::Retry {
                    after_secs,
                    delivery: Delivery { pieces: self.pieces, state, record: self.record },
                };
            },
        };
        let ghost records = before.push(chunk@);
        let pieces = self.pieces;
        let mut record = self.record;
        proof {
            assert(records.drop_last() =~= before);
            assert(pieces.deep_view()[n as int].text == pieces@[n as int].text@);
        }
        record.attempts = record.attempts + chunk.attempts;
        if let Some(id) = &chunk.platform_message_id {
            record.platform_message_id = Some(id.clone());
        }
        record.retry_after_secs = chunk.retry_after_secs;
        record.status = chunk.status;
        let status = chunk.status;
        if status == DeliveryStatus::Sent {
            record.error = None;
        } else {
            record.error = clone_text(&chunk.error);
        }
        record.chunks.push(chunk);
        assert(record.chunks.deep_view() =~= records);
        assert(records_of(records, pieces.deep_view())) by {
            assert forall|i: int| 0 <= i < records.len() implies (#[trigger] records[i]).text
                == pieces.deep_view()[i].text && (i < records.len() - 1 ==> records[i].status
                == DeliveryStatus::Sent) by {
                if i < before.len() {
                    assert(records[i] == before[i]);
                    assert(i == before.len() - 1 ==> before[i] == before.last());
                }
            }
        }
        if status == DeliveryStatus::Sent && record.chunks.len() < pieces.len() {
            DeliveryStep::Send(Delivery { pieces, state: SendState::new(), record })
        } else {
            DeliveryStep::Finished(record)
        }
    }
}

/// A delivery that ends as sent has sent every piece of the message, in order;
/// one that ends otherwise has sent all pieces before the last one that it
/// tried, and none after it.
pub proof fn law_sent_is_whole(r: DeliveryRecord, m: OutboundView)
    requires
        delivery_of(r, outbound_pieces(m)),
    ensures
        ({
            let records = r.chunks.deep_view();
            let pieces = outbound_pieces(m);
            &&& r.status == DeliveryStatus::Sent ==> records.len() == pieces.len() && forall|i: int|
                0 <= i < pieces.len() ==> (#[trigger] records[i]).text == pieces[i].text
                    && records[i].status == DeliveryStatus::Sent
            &&& r.status != DeliveryStatus::Sent ==> 0 < records.len() <= pieces.len()
                && records.last().status == r.status && forall|i: int|
                0 <= i < records.len() - 1 ==> (#[trigger] records[i]).text == pieces[i].text
                    && records[i].status == DeliveryStatus::Sent
        }),
{
}

/// One piece of a reply as it is kept with the session.
#[derive(Debug)]
pub struct StoredReplyChunk {
    pub content: String,
    pub platform_message_id: Option<String>,
    pub status: String,
    pub attempts: usize,
    pub retry_after_secs: Option<u64>,
    pub error: Option<String>,
}

/// What a stored piece says.
pub struct ReplyChunkView {
    pub content: Seq<char>,
    pub platform_message_id: Option<Seq<char>>,
    pub status: Seq<char>,
    pub attempts: nat,
    pub retry_after_secs: Option<u64>,
    pub error: Option<Seq<char>>,
}

impl View for StoredReplyChunk {
    type V = ReplyChunkView;

    open spec fn view(&self) -> ReplyChunkView {
        ReplyChunkView {
            content: self.content@,
            platform_message_id: self.platform_message_id.deep_view(),
            status: self.status@,
            attempts: self.attempts as nat,
            retry_after_secs: self.retry_after_secs,
            error: self.error.deep_view(),
        }
    }
}

impl DeepView for StoredReplyChunk {
    type V = ReplyChunkView;

    open spec fn deep_view(&self) -> ReplyChunkView {
        self@
    }
}

/// The last reply as it is kept with the session.
#[derive(Debug)]
pub struct StoredReplyMetadata {
    pub channel: String,
    pub account_id: String,
    pub recipient_id: String,
    pub thread_id: Option<String>,
    pub reply_to: Option<String>,
    pub content: String,
    pub platform_message_id: Option<String>,
    pub status: String,
    pub attempts: usize,
    pub retry_after_secs: Option<u64>,
    pub error: Option<String>,
    pub chunks: Vec<StoredReplyChunk>,
    pub recorded_at: Timestamp,
}

/// What a stored reply says.
pub struct ReplyView {
    pub channel: Seq<char>,
    pub account_id: Seq<char>,
    pub recipient_id: Seq<char>,
    pub thread_id: Option<Seq<char>>,
    pub reply_to: Option<Seq<char>>,
    pub content: Seq<char>,
    pub platform_message_id: Option<Seq<char>>,
    pub status: Seq<char>,
    pub attempts: nat,
    pub retry_after_secs: Option<u64>,
    pub error: Option<Seq<char>>,
    pub chunks: Seq<ReplyChunkView>,
    pub recorded_at: Timestamp,
}

impl View for StoredReplyMetadata {
    type V = ReplyView;

    open spec fn view(&self) -> ReplyView {
        ReplyView {
            channel: self.channel@,
            account_id: self.account_id@,
            recipient_id: self.recipient_id@,
            thread_id: self.thread_id.deep_view(),
            reply_to: self.reply_to.deep_view(),
            content: self.content@,
            platform_message_id: self.platform_message_id.deep_view(),
            status: self.status@,
            attempts: self.attempts as nat,
            retry_after_secs: self.retry_after_secs,
            error: self.error.deep_view(),
            chunks: self.chunks.deep_view(),
            recorded_at: self.recorded_at,
        }
    }
}

/// The JSON form of a stored piece.
pub open spec fn chunk_json(c: ReplyChunkView) -> JsonView {
    JsonView::Object(
        map![
            "content"@ => JsonView::Text(c.content),
            "platform_message_id"@ => optional_text(c.platform_message_id),
            "status"@ => JsonView::Text(c.status),
            "attempts"@ => number(c.attempts),
            "retry_after_secs"@ => optional_unsigned(c.retry_after_secs),
            "error"@ => optional_text(c.error),
        ],
    )
}

/// The JSON form of a stored reply, given the text of its moment.
pub open spec fn reply_json(v: ReplyView, recorded_at: Seq<char>) -> JsonView {
    JsonView::Object(
        map![
            "channel"@ => JsonView::Text(v.channel),
            "account_id"@ => JsonView::Text(v.account_id),
            "recipient_id"@ => JsonView::Text(v.recipient_id),
            "thread_id"@ => optional_text(v.thread_id),
            "reply_to"@ => optional_text(v.reply_to),
            "content"@ => JsonView::Text(v.content),
            "platform_message_id"@ => optional_text(v.platform_message_id),
            "status"@ => JsonView::Text(v.status),
            "attempts"@ => number(v.attempts),
            "retry_after_secs"@ => optional_unsigned(v.retry_after_secs),
            "error"@ => optional_text(v.error),
            "chunks"@ => JsonView::Array(
                Seq::new(v.chunks.len(), |i: int| chunk_json(v.chunks[i])),
            ),
            "recorded_at"@ => JsonView::Text(recorded_at),
        ],
    )
}

fn chunk_to_json(c: &StoredReplyChunk) -> (r: JsonValue)
    ensures
        r@ == chunk_json(c@),
{
    let mut o = JsonObject::new();
    o.put_text("content", c.content.as_str());
    o.put("platform_message_id", JsonValue::optional_text(&c.platform_message_id));
    o.put_text("status", c.status.as_str());
    o.put_unsigned("attempts", c.attempts as u64);
    o.put("retry_after_secs", JsonValue::optional_unsigned(c.retry_after_secs));
    o.put("error", JsonValue::optional_text(&c.error));
    o.finish()
}

fn reply_to_json(v: &StoredReplyMetadata, recorded_at: &str) -> (r: JsonValue)
    ensures
        r@ == reply_json(v@, recorded_at@),
{
    let mut chunks: Vec<JsonValue> = Vec::new();
    let mut i: usize = 0;
    while i < v.chunks.len()
        invariant
            i <= v.chunks@.len(),
            chunks@.len() == i,
            forall|k: int| 0 <= k < i ==> (#[trigger] chunks@[k])@ == chunk_json(v.chunks@[k]@),
        decreases v.chunks@.len() - i,
    {
        chunks.push(chunk_to_json(&v.chunks[i]));
        i = i + 1;
    }
    proof {
        lemma_items(chunks@);
        assert(items_view(chunks@) =~= Seq::new(
            v@.chunks.len(),
            |i: int| chunk_json(v@.chunks[i]),
        ));
    }
    let mut o = JsonObject::new();
    o.put_text("channel", v.channel.as_str());
    o.put_text("account_id", v.account_id.as_str());
    o.put_text("recipient_id", v.recipient_id.as_str());
    o.put("thread_id", JsonValue::optional_text(&v.thread_id));
    o.put("reply_to", JsonValue::optional_text(&v.reply_to));
    o.put_text("content", v.content.as_str());
    o.put("platform_message_id", JsonValue::optional_text(&v.platform_message_id));
    o.put_text("status", v.status.as_str());
    o.put_unsigned("attempts", v.attempts as u64);
    o.put("retry_after_secs", JsonValue::optional_unsigned(v.retry_after_secs));
    o.put("error", JsonValue::optional_text(&v.error));
    o.put("chunks", JsonValue::Array(chunks));
    o.put_text("recorded_at", recorded_at);
    o.finish()
}

/// The size under `key`, where the member is one.
pub open spec fn size_member(j: JsonView, key: Seq<char>) -> Option<nat> {
    match j.unsigned_member(key) {
        Some(n) => if n <= usize::MAX {
            Some(n)
        } else {
            None
        },
        None => None,
    }
}

fn get_size(j: &JsonValue, key: &str) -> (r: Option<usize>)
    ensures
        r is Some == size_member(j@, key@) is Some,
        r is Some ==> r->0 == size_member(j@, key@)->0,
{
    match j.get_u64(key) {
        Some(n) => if n <= usize::MAX as u64 {
            Some(n as usize)
        } else {
            None
        },
        None => None,
    }
}

/// The stored piece that a JSON object spells out, if it does.
pub open spec fn chunk_of(j: JsonView) -> Option<ReplyChunkView> {
    let content = j.text_member("content"@);
    let id = j.optional_text_member("platform_message_id"@);
    let status = j.text_member("status"@);
    let attempts = size_member(j, "attempts"@);
    let retry = j.optional_unsigned_member("retry_after_secs"@);
    let error = j.optional_text_member("error"@);
    if content is Some && id is Some && status is Some && attempts is Some && retry is Some
        && error is Some {
        Some(
            ReplyChunkView {
                content: content->0,
                platform_message_id: id->0,
                status: status->0,
                attempts: attempts->0,
                retry_after_secs: retry->0,
                error: error->0,
            },
        )
    } else {
        None
    }
}

/// The stored pieces that the items of an array spell out, if all do.
pub open spec fn chunks_of(items: Seq<JsonView>) -> Option<Seq<ReplyChunkView>> {
    if forall|i: int| 0 <= i < items.len() ==> chunk_of(#[trigger] items[i]) is Some {
        Some(Seq::new(items.len(), |i: int| chunk_of(items[i])->0))
    } else {
        None
    }
}

/// The pieces under `chunks`; none where the member is absent.
pub open spec fn chunks_member(j: JsonView) -> Option<Seq<ReplyChunkView>> {
    match j.member("chunks"@) {
        None => Some(Seq::empty()),
        Some(JsonView::Array(items)) => chunks_of(items),
        Some(_) => None,
    }
}

/// The moment under `recorded_at`.
pub open spec fn recorded_member(j: JsonView) -> Option<Timestamp> {
    match j.text_member("recorded_at"@) {
        Some(text) => instant_of(text),
        None => None,
    }
}

/// The stored reply that a JSON object spells out, if it does.
pub open spec fn reply_of(j: JsonView) -> Option<ReplyView> {
    reply_with(j, recorded_member(j))
}

/// The stored reply that a JSON object spells out, given the moment of its
/// record, if it does.
pub open spec fn reply_with(j: JsonView, recorded_at: Option<Timestamp>) -> Option<ReplyView> {
    let channel = j.text_member("channel"@);
    let account_id = j.text_member("account_id"@);
    let recipient_id = j.text_member("recipient_id"@);
    let thread_id = j.optional_text_member("thread_id"@);
    let reply_to = j.optional_text_member("reply_to"@);
    let content = j.text_member("content"@);
    let id = j.optional_text_member("platform_message_id"@);
    let status = j.text_member("status"@);
    let attempts = size_member(j, "attempts"@);
    let retry = j.optional_unsigned_member("retry_after_secs"@);
    let error = j.optional_text_member("error"@);
    let chunks = chunks_member(j);
    if channel is Some && account_id is Some && recipient_id is Some && thread_id is Some
        && reply_to is Some && content is Some && id is Some && status is Some && attempts is Some
        && retry is Some && error is Some && chunks is Some && recorded_at is Some {
        Some(
            ReplyView {
                channel: channel->0,
                account_id: account_id->0,
                recipient_id: recipient_id->0,
                thread_id: thread_id->0,
                reply_to: reply_to->0,
                content: content->0,
                platform_message_id: id->0,
                status: status->0,
                attempts: attempts->0,
                retry_after_secs: retry->0,
                error: error->0,
                chunks: chunks->0,
                recorded_at: recorded_at->0,
            },
        )
    } else {
        None
    }
}

fn chunk_from_json(j: &JsonValue) -> (r: Option<StoredReplyChunk>)
    ensures
        r.deep_view() == chunk_of(j@),
{
    let content = j.get_text("content")?;
    let platform_message_id = j.get_optional_str("platform_message_id")?;
    let status = j.get_text("status")?;
    let attempts: usize = get_size(j, "attempts")?;
    let retry_after_secs = j.get_optional_u64("retry_after_secs")?;
    let error = j.get_optional_str("error")?;
    Some(
        StoredReplyChunk { content, platform_message_id, status, attempts, retry_after_secs, error },
    )
}

fn chunks_from_json(j: &JsonValue) -> (r: Option<Vec<StoredReplyChunk>>)
    ensures
        r is Some == chunks_member(j@) is Some,
        r is Some ==> r->0.deep_view() == chunks_member(j@)->0,
{
    let mut out: Vec<StoredReplyChunk> = Vec::new();
    let items = match j.get("chunks") {
        None => {
            assert(out.deep_view() =~= Seq::empty());
            return Some(out);
        },
        Some(JsonValue::Array(items)) => items,
        Some(_) => {
            return None;
        },
    };
    let ghost view = items_view(items@);
    proof {
        lemma_items(items@);
    }
    let mut i: usize = 0;
    while i < items.len()
        invariant
            i <= items@.len(),
            chunks_member(j@) == chunks_of(view),
            view.len() == items@.len(),
            forall|k: int| 0 <= k < items@.len() ==> #[trigger] view[k] == items@[k]@,
            out@.len() == i,
            forall|k: int|
                0 <= k < i ==> chunk_of(#[trigger] view[k]) is Some && out@[k]@ == chunk_of(
                    view[k],
                )->0,
        decreases items@.len() - i,
    {
        assert(view[i as int] == items@[i as int]@);
        match chunk_from_json(&items[i]) {
            Some(chunk) => {
                out.push(chunk);
            },
            None => {
                return None;
            },
        }
        i = i + 1;
    }
    assert(out.deep_view() =~= Seq::new(view.len(), |i: int| chunk_of(view[i])->0));
    Some(out)
}

fn reply_from_json(j: &JsonValue) -> (r: Option<StoredReplyMetadata>)
    ensures
        r is Some == reply_of(j@) is Some,
        r is Some ==> r->0@ == reply_of(j@)->0 && representable(r->0.recorded_at),
{
    let recorded_at = match j.get_str("recorded_at") {
        Some(text) => parse_instant(text),
        None => None,
    };
    reply_recorded_at(j, recorded_at)
}

/// The stored reply that a JSON object spells out, given the moment of its
/// record, if it does.
pub fn reply_recorded_at(j: &JsonValue, recorded_at: Option<Timestamp>) -> (r: Option<
    StoredReplyMetadata,
>)
    ensures
        r is Some == reply_with(j@, recorded_at) is Some,
        r is Some ==> r->0@ == reply_with(j@, recorded_at)->0,
{
    let channel = j.get_text("channel")?;
    let account_id = j.get_text("account_id")?;
    let recipient_id = j.get_text("recipient_id")?;
    let thread_id = j.get_optional_str("thread_id")?;
    let reply_to = j.get_optional_str("reply_to")?;
    let content = j.get_text("content")?;
    let platform_message_id = j.get_optional_str("platform_message_id")?;
    let status = j.get_text("status")?;
    let attempts: usize = get_size(j, "attempts")?;
    let retry_after_secs = j.get_optional_u64("retry_after_secs")?;
    let error = j.get_optional_str("error")?;
    let chunks = chunks_from_json(j)?;
    let recorded_at = recorded_at?;
    Some(
        StoredReplyMetadata {
            channel,
            account_id,
            recipient_id,
            thread_id,
            reply_to,
            content,
            platform_message_id,
            status,
            attempts,
            retry_after_secs,
            error,
            chunks,
            recorded_at,
        },
    )
}

/// The last reply in a session's metadata, if there is one.
pub open spec fn last_reply_in(metadata: JsonView) -> Option<ReplyView> {
    match metadata.member("delivery"@) {
        Some(delivery) => match delivery.member("last_reply"@) {
            Some(reply) => reply_of(reply),
            None => None,
        },
        None => None,
    }
}

/// The last reply in a session's metadata, if there is one.
pub fn last_reply_from_metadata(metadata: &JsonValue) -> (r: Option<StoredReplyMetadata>)
    ensures
        r is Some == last_reply_in(metadata@) is Some,
        r is Some ==> r->0@ == last_reply_in(metadata@)->0 && representable(r->0.recorded_at),
{
    match metadata.get("delivery") {
        Some(delivery) => match delivery.get("last_reply") {
            Some(reply) => reply_from_json(reply),
            None => None,
        },
        None => None,
    }
}

/// The members of an object; none for any other value.
pub open spec fn members_of(j: Option<JsonView>) -> Map<Seq<char>, JsonView> {
    match j {
        Some(JsonView::Object(m)) => m,
        _ => Map::empty(),
    }
}

/// A session's metadata with the given last reply. Everything else in it
/// stays; whatever is not an object gives way to one.
pub open spec fn with_last_reply(metadata: JsonView, reply: JsonView) -> JsonView {
    let delivery = members_of(metadata.member("delivery"@)).insert("last_reply"@, reply);
    JsonView::Object(
        members_of(Some(metadata)).insert("delivery"@, JsonView::Object(delivery)),
    )
}

fn take_members(j: Option<JsonValue>) -> (r: JsonObject)
    ensures
        r@ == members_of(
            match j {
                Some(j) => Some(j@),
                None => None,
            },
        ),
{
    match j {
        Some(JsonValue::Object(members)) => JsonObject { members },
        _ => JsonObject::new(),
    }
}

/// Stores the last reply in a session's metadata. It fails, and changes
/// nothing, only when the reply's moment has no calendar date.
pub fn set_last_reply_in_metadata(metadata: &mut JsonValue, reply: &StoredReplyMetadata) -> (r:
    Result<(), String>)
    ensures
        r is Ok == representable(reply.recorded_at),
        r is Ok ==> final(metadata)@ == with_last_reply(
            old(metadata)@,
            reply_json(reply@, instant_text(reply.recorded_at.secs, reply.recorded_at.nanos)),
        ),
        r is Err ==> final(metadata)@ == old(metadata)@ && r->Err_0@
            == "recorded_at is out of range"@,
        civil(reply.recorded_at) ==> r is Ok && last_reply_in(final(metadata)@) == Some(reply@),
{
    if !is_representable(reply.recorded_at) {
        return Err("recorded_at is out of range".to_owned());
    }
    let recorded_at = format_instant(reply.recorded_at);
    let ghost before = metadata@;
    let value = reply_to_json(reply, recorded_at.as_str());
    let delivery = match metadata.get("delivery") {
        Some(j) => Some(j.clone()),
        None => None,
    };
    let mut delivery_object = take_members(delivery);
    delivery_object.put("last_reply", value);
    let mut object = take_members(Some(metadata.clone()));
    object.put("delivery", delivery_object.finish());
    *metadata = object.finish();
    proof {
        assert(metadata@ == with_last_reply(before, value@));
        if civil(reply.recorded_at) {
            law_reply_reads_back(before, reply@, recorded_at@);
        }
    }
    Ok(())
}

proof fn lemma_chunk_reads_back(c: ReplyChunkView)
    requires
        c.attempts <= usize::MAX,
    ensures
        chunk_of(chunk_json(c)) == Some(c),
{
    reveal_strlit("content");
    reveal_strlit("platform_message_id");
    reveal_strlit("status");
    reveal_strlit("attempts");
    reveal_strlit("retry_after_secs");
    reveal_strlit("error");
    assert("content"@.len() == 7);
    assert("platform_message_id"@.len() == 19);
    assert("status"@.len() == 6);
    assert("attempts"@.len() == 8);
    assert("retry_after_secs"@.len() == 16);
    assert("error"@.len() == 5);
}

/// The last reply that was stored is the one that is read back, whatever the
/// metadata held before, given a text of its moment that reads back.
pub proof fn law_reply_reads_back(metadata: JsonView, v: ReplyView, recorded_at: Seq<char>)
    requires
        instant_of(recorded_at) == Some(v.recorded_at),
        v.attempts <= usize::MAX,
        forall|i: int| 0 <= i < v.chunks.len() ==> (#[trigger] v.chunks[i]).attempts <= usize::MAX,
    ensures
        last_reply_in(with_last_reply(metadata, reply_json(v, recorded_at))) == Some(v),
{
    let j = reply_json(v, recorded_at);
    reveal_strlit("channel");
    reveal_strlit("account_id");
    reveal_strlit("recipient_id");
    reveal_strlit("thread_id");
    reveal_strlit("reply_to");
    reveal_strlit("content");
    reveal_strlit("platform_message_id");
    reveal_strlit("status");
    reveal_strlit("attempts");
    reveal_strlit("retry_after_secs");
    reveal_strlit("error");
    reveal_strlit("chunks");
    reveal_strlit("recorded_at");
    // The names differ in length, or in their first letters.
    assert("channel"@.len() == 7 && "channel"@[1] == 'h');
    assert("content"@.len() == 7 && "content"@[1] == 'o');
    assert("account_id"@.len() == 10);
    assert("recipient_id"@.len() == 12);
    assert("thread_id"@.len() == 9);
    assert("reply_to"@.len() == 8 && "reply_to"@[0] == 'r');
    assert("attempts"@.len() == 8 && "attempts"@[0] == 'a');
    assert("platform_message_id"@.len() == 19);
    assert("status"@.len() == 6 && "status"@[0] == 's');
    assert("chunks"@.len() == 6 && "chunks"@[0] == 'c');
    assert("retry_after_secs"@.len() == 16);
    assert("error"@.len() == 5);
    assert("recorded_at"@.len() == 11);
    let items = Seq::new(v.chunks.len(), |i: int| chunk_json(v.chunks[i]));
    assert forall|i: int| 0 <= i < items.len() implies chunk_of(#[trigger] items[i]) == Some(
        v.chunks[i],
    ) by {
        lemma_chunk_reads_back(v.chunks[i]);
    }
    assert(j.member("chunks"@) == Some(JsonView::Array(items)));
    assert(chunks_of(items)->0 =~= v.chunks);
    assert(reply_of(j) == Some(v));
}

/// Storing a reply leaves every other part of the metadata as it was.
pub proof fn law_reply_keeps_rest(metadata: JsonView, reply: JsonView, key: Seq<char>)
    requires
        metadata is Object,
    ensures
        key != "delivery"@ ==> with_last_reply(metadata, reply).member(key) == metadata.member(key),
        key != "last_reply"@ && metadata.member("delivery"@) is Some && metadata.member(
            "delivery"@,
        )->0 is Object ==> with_last_reply(metadata, reply).member("delivery"@)->0.member(key)
            == metadata.member("delivery"@)->0.member(key),
{
}

} // verus!
