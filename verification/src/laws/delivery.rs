//! Deliveries: nothing of a reply is lost on its way out, every part fits and
//! goes to the right place, and the record tells what happened.

use crate::error::FrankClawError;
use crate::gateway::delivery::{
    chunk_end, chunks, joined, last_reply_from_metadata, last_white, law_pieces_fit,
    law_pieces_share_target, law_split_keeps_text, law_words_stay_whole, outbound_pieces,
    send_outbound_chunk, set_last_reply_in_metadata, split_outbound_message, split_text,
    text_pieces, Delivery, DeliveryStatus, DeliveryStep, SendState, SendStep, StoredReplyMetadata,
};
use crate::json::JsonValue;
use crate::message::{OutboundMessage, SendResult};
use crate::text::{
    is_blank, is_white, lemma_trimmed, lemma_trimmed_start, solid, trimmed, trimmed_start, words_of,
};
use crate::time::civil;
use vstd::prelude::*;
use vstd::string::*;

verus! {

/// The longest text that the platform of a channel takes, in characters.
pub open spec fn platform_limit(channel: Seq<char>) -> Option<int> {
    if channel == "discord"@ {
        Some(1900)
    } else if channel == "telegram"@ {
        Some(3500)
    } else if channel == "slack"@ {
        Some(3500)
    } else if channel == "signal"@ {
        Some(3000)
    } else {
        None
    }
}

/// The texts of messages, in order.
pub open spec fn texts_in(messages: Seq<OutboundMessage>) -> Seq<Seq<char>> {
    Seq::new(messages.len(), |i: int| messages[i].text@)
}

/// No solid character of a message is lost, repeated or moved on the way out:
/// the texts of the messages that go out, put together in order, hold the same
/// solid characters in the same order as the text of the message.
pub proof fn law_nothing_is_lost(outbound: &OutboundMessage, sent: Vec<OutboundMessage>)
    requires
        call_ensures(split_outbound_message, (outbound,), sent),
    ensures
        sent@.len() > 0,
        solid(joined(texts_in(sent@))) == solid(outbound.text@),
{
    let m = outbound@;
    let texts = texts_in(sent@);
    assert forall|i: int| 0 <= i < sent@.len() implies #[trigger] sent@[i].text@
        == outbound_pieces(m)[i].text by {
        assert(sent.deep_view()[i].text == sent@[i].text@);
    }
    assert(sent.deep_view().len() == sent@.len());
    let limit = platform_limit(m.channel);
    if limit is None || m.attachments.len() > 0 || m.text.len() <= limit->0 {
        assert(texts =~= seq![m.text]);
        assert(texts.drop_first() =~= Seq::empty());
        assert(joined(texts.drop_first()) =~= Seq::empty());
        assert(joined(texts) =~= m.text);
    } else if is_blank(m.text) {
        assert(texts =~= seq![m.text]);
        assert(texts.drop_first() =~= Seq::empty());
        assert(joined(texts.drop_first()) =~= Seq::empty());
        assert(joined(texts) =~= m.text);
    } else {
        law_split_keeps_text(m.text, limit->0);
        assert(texts =~= text_pieces(m.text, limit->0));
    }
}

/// Whatever goes out for a message that is not blank and carries no files fits
/// the platform, and begins and ends with a solid character where the message
/// was parted.
pub proof fn law_parts_fit(outbound: &OutboundMessage, sent: Vec<OutboundMessage>, i: int)
    requires
        call_ensures(split_outbound_message, (outbound,), sent),
        platform_limit(outbound.channel@) is Some,
        outbound.attachments@.len() == 0,
        !is_blank(outbound.text@),
        0 <= i < sent@.len(),
    ensures
        sent@[i].text@.len() <= platform_limit(outbound.channel@)->0,
        sent@.len() > 1 ==> sent@[i].text@.len() > 0 && !is_white(sent@[i].text@[0]) && !is_white(
            sent@[i].text@.last(),
        ),
{
    let m = outbound@;
    assert(m.attachments.len() == 0);
    assert(sent.deep_view()[i].text == sent@[i].text@);
    assert(sent.deep_view().len() == sent@.len());
    law_pieces_fit(m);
    assert(outbound_pieces(m)[i].text.len() <= platform_limit(outbound.channel@)->0);
    if m.text.len() > platform_limit(m.channel)->0 {
        law_split_keeps_text(m.text, platform_limit(m.channel)->0);
        assert(sent@[i].text@ == text_pieces(m.text, platform_limit(m.channel)->0)[i]);
    }
}

/// A message that fits, that carries files or whose platform has no limit goes
/// out as the one message that it is.
pub proof fn law_fitting_goes_whole(outbound: &OutboundMessage, sent: Vec<OutboundMessage>)
    requires
        call_ensures(split_outbound_message, (outbound,), sent),
        platform_limit(outbound.channel@) is None || outbound.attachments@.len() > 0
            || outbound.text@.len() <= platform_limit(outbound.channel@)->0,
    ensures
        sent@.len() == 1,
        sent@[0]@ == outbound@,
{
    assert(outbound@.attachments.len() == outbound.attachments@.len());
    assert(sent.deep_view().len() == sent@.len());
    assert(sent.deep_view()[0] == sent@[0]@);
}

/// A word of a message that fits the platform is not broken: it is a word of one
/// of the messages that go out.
pub proof fn law_no_word_is_broken(
    outbound: &OutboundMessage,
    sent: Vec<OutboundMessage>,
    w: Seq<char>,
)
    requires
        call_ensures(split_outbound_message, (outbound,), sent),
        words_of(outbound.text@).contains(w),
        platform_limit(outbound.channel@) is Some ==> w.len() <= platform_limit(
            outbound.channel@,
        )->0,
    ensures
        exists|i: int|
            0 <= i < sent@.len() && words_of((#[trigger] sent@[i]).text@).contains(w),
{
    let m = outbound@;
    let limit = platform_limit(m.channel);
    assert(sent.deep_view().len() == sent@.len());
    if limit is None || m.attachments.len() > 0 || m.text.len() <= limit->0 {
        assert(sent.deep_view()[0].text == sent@[0].text@);
        assert(words_of(sent@[0].text@).contains(w));
    } else {
        law_words_stay_whole(m.text, limit->0, w);
        let i = choose|i: int|
            0 <= i < text_pieces(m.text, limit->0).len() && words_of(
                #[trigger] text_pieces(m.text, limit->0)[i],
            ).contains(w);
        assert(sent.deep_view()[i].text == sent@[i].text@);
        assert(words_of(sent@[i].text@).contains(w));
    }
}

/// Every part of a message goes where the message goes, by the same account; the
/// first part, and only it, answers what the message answers.
pub proof fn law_parts_go_where_the_message_goes(
    outbound: &OutboundMessage,
    sent: Vec<OutboundMessage>,
    i: int,
)
    requires
        call_ensures(split_outbound_message, (outbound,), sent),
        0 <= i < sent@.len(),
    ensures
        sent@[i].channel@ == outbound.channel@,
        sent@[i].account_id@ == outbound.account_id@,
        sent@[i].to@ == outbound.to@,
        sent@[i].thread_id.deep_view() == outbound.thread_id.deep_view(),
        sent@[i].reply_to.deep_view() == if i == 0 {
            outbound.reply_to.deep_view()
        } else {
            None
        },
{
    let m = outbound@;
    assert(sent.deep_view()[i] == sent@[i]@);
    assert(sent.deep_view().len() == sent@.len());
    law_pieces_share_target(m);
    assert(outbound_pieces(m)[i].channel == m.channel);
}

/// Splitting a text loses nothing: the pieces, put together in order, hold its
/// solid characters in its order, and none is longer than the limit.
pub proof fn law_split_text(text: &str, max: usize, pieces: Vec<String>)
    requires
        call_ensures(split_text, (text, max), pieces),
        max > 0,
        !is_blank(text@),
    ensures
        solid(joined(pieces.deep_view())) == solid(text@),
        forall|i: int| 0 <= i < pieces@.len() ==> 0 < (#[trigger] pieces@[i])@.len() <= max,
{
    law_split_keeps_text(text@, max as int);
    assert forall|i: int| 0 <= i < pieces@.len() implies 0 < (#[trigger] pieces@[i])@.len()
        <= max by {
        assert(pieces.deep_view()[i] == pieces@[i]@);
    }
}

/// A try that got through is recorded as sent, with the text and with the
/// identifier that the platform gave.
pub proof fn law_sent_is_recorded(text: &str, state: SendState, id: String, step: SendStep)
    requires
        state.attempts < 3,
        call_ensures(
            send_outbound_chunk,
            (text, state, Ok(SendResult::Sent { platform_message_id: id })),
            step,
        ),
    ensures
        step is Done,
        step->Done_0.status == DeliveryStatus::Sent,
        step->Done_0.text@ == text@,
        step->Done_0.platform_message_id is Some,
        step->Done_0.platform_message_id->0@ == id@,
        step->Done_0.attempts == state.attempts + 1,
        step->Done_0.error is None,
{
    assert(step@ is Done);
    assert(step@->Done_0 == step->Done_0@);
}

/// A try that did not get through is repeated, after a wait of one to thirty
/// seconds, until it was the third; then the last outcome stands.
pub proof fn law_three_tries(
    text: &str,
    state: SendState,
    outcome: Result<SendResult, FrankClawError>,
    step: SendStep,
)
    requires
        state.attempts < 3,
        !(outcome is Ok && outcome->Ok_0 is Sent),
        call_ensures(send_outbound_chunk, (text, state, outcome), step),
    ensures
        state.attempts < 2 ==> step is Retry && step->state.attempts == state.attempts + 1 && 1
            <= step->after_secs <= 30,
        state.attempts == 2 ==> match outcome {
            Ok(SendResult::RateLimited { retry_after_secs }) => step is Done
                && step->Done_0.status == DeliveryStatus::RateLimited
                && step->Done_0.retry_after_secs == retry_after_secs && step->Done_0.text@ == text@,
            Ok(SendResult::Failed { reason }) => step is Done && step->Done_0.status
                == DeliveryStatus::Failed && step->Done_0.error is Some && step->Done_0.error->0@
                == reason@ && step->Done_0.text@ == text@,
            Err(err) => step == SendStep::GiveUp(err),
            Ok(SendResult::Sent { .. }) => true,
        },
        state.attempts == 2 && step is Done ==> step->Done_0.attempts == 3,
{
    if state.attempts == 2 && outcome is Ok {
        assert(step@ is Done);
        assert(step@->Done_0 == step->Done_0@);
    }
}

/// A rate limit that asks for a wait gets it, where it is one to thirty seconds.
pub proof fn law_asked_wait_is_kept(text: &str, state: SendState, secs: u64, step: SendStep)
    requires
        state.attempts < 2,
        1 <= secs <= 30,
        call_ensures(
            send_outbound_chunk,
            (text, state, Ok(SendResult::RateLimited { retry_after_secs: Some(secs) })),
            step,
        ),
    ensures
        step is Retry,
        step->after_secs == secs,
{
}

/// A delivery begins with the first part of the message and with nothing
/// recorded; the part that is next is the one after those that are recorded.
pub proof fn law_delivery_starts(
    outbound: &OutboundMessage,
    parts: Vec<OutboundMessage>,
    d: Delivery,
    next: &OutboundMessage,
)
    requires
        call_ensures(split_outbound_message, (outbound,), parts),
        call_ensures(Delivery::new, (outbound,), d),
        call_ensures(Delivery::next, (&d,), next),
    ensures
        parts@.len() > 0,
        next@ == parts@[0]@,
        d.record.chunks@.len() == 0,
        d.pieces.deep_view() == parts.deep_view(),
{
    law_nothing_is_lost(outbound, parts);
    assert(parts.deep_view()[0] == parts@[0]@);
    assert(d.pieces.deep_view()[0] == d.pieces@[0]@);
}

/// A part that was sent is recorded and lets the next one follow; after the last
/// one the delivery ends as sent, with a record of every part.
pub proof fn law_sent_parts_follow_each_other(
    d: Delivery,
    id: String,
    step: DeliveryStep,
    sent: &OutboundMessage,
)
    requires
        d.wf(),
        call_ensures(Delivery::next, (&d,), sent),
        call_ensures(
            Delivery::on_outcome,
            (d, Ok(SendResult::Sent { platform_message_id: id })),
            step,
        ),
    ensures
        d.record.chunks@.len() + 1 < d.pieces@.len() ==> step is Send && step->Send_0.pieces
            == d.pieces && step->Send_0.record.chunks@.len() == d.record.chunks@.len() + 1
            && step->Send_0.record.chunks@.last().text@ == sent.text@
            && step->Send_0.record.chunks@.last().platform_message_id.deep_view() == Some(id@),
        d.record.chunks@.len() + 1 == d.pieces@.len() ==> step is Finished
            && step->Finished_0.status == DeliveryStatus::Sent && step->Finished_0.chunks@.len()
            == d.pieces@.len() && step->Finished_0.platform_message_id.deep_view() == Some(id@)
            && step->Finished_0.chunks@.last().text@ == sent.text@ && step->Finished_0.error is None,
{
    let before = d.record.chunks.deep_view();
    assert(before.len() == d.record.chunks@.len());
    if step is Send {
        let after = step->Send_0.record.chunks;
        assert(after.deep_view().len() == after@.len());
        assert(after.deep_view().last() == after@.last()@);
    }
    if step is Finished {
        let after = step->Finished_0.chunks;
        assert(after.deep_view().len() == after@.len());
        assert(after.deep_view().last() == after@.last()@);
    }
}

/// A part that failed for the third time ends the delivery: the record holds the
/// parts before it and it, says how it failed, and no part after it is tried.
pub proof fn law_failure_ends_delivery(d: Delivery, reason: String, step: DeliveryStep)
    requires
        d.wf(),
        call_ensures(Delivery::on_outcome, (d, Ok(SendResult::Failed { reason })), step),
    ensures
        d.state.attempts == 2 ==> step is Finished && step->Finished_0.status
            == DeliveryStatus::Failed && step->Finished_0.error.deep_view() == Some(reason@)
            && step->Finished_0.chunks@.len() == d.record.chunks@.len() + 1,
        d.state.attempts < 2 ==> step is Retry && step->delivery.pieces == d.pieces
            && step->delivery.record == d.record && step->delivery.state.attempts
            == d.state.attempts + 1,
{
    assert(d.record.chunks.deep_view().len() == d.record.chunks@.len());
    if step is Finished {
        let after = step->Finished_0.chunks;
        assert(after.deep_view().len() == after@.len());
    }
}

/// The tries of a delivery that is over are those of its parts, one to three
/// each.
pub proof fn law_tries_add_up(
    d: Delivery,
    outcome: Result<SendResult, FrankClawError>,
    step: DeliveryStep,
)
    requires
        d.wf(),
        call_ensures(Delivery::on_outcome, (d, outcome), step),
        step is Finished,
    ensures
        step->Finished_0.attempts == d.record.attempts + d.state.attempts + 1,
{
    let before = d.record.chunks.deep_view();
    let records = step->Finished_0.chunks.deep_view();
    assert(records.drop_last() =~= before);
}

/// What is stored of a reply is what is read back, field by field, whatever the
/// metadata held before.
pub proof fn law_stored_reply_is_found(
    metadata: &mut JsonValue,
    reply: &StoredReplyMetadata,
    stored: Result<(), String>,
    found: Option<StoredReplyMetadata>,
)
    requires
        civil(reply.recorded_at),
        call_ensures(set_last_reply_in_metadata, (metadata, reply), stored),
        call_ensures(last_reply_from_metadata, (final(metadata),), found),
    ensures
        stored is Ok,
        found is Some,
        found->0.channel@ == reply.channel@,
        found->0.account_id@ == reply.account_id@,
        found->0.recipient_id@ == reply.recipient_id@,
        found->0.thread_id.deep_view() == reply.thread_id.deep_view(),
        found->0.reply_to.deep_view() == reply.reply_to.deep_view(),
        found->0.content@ == reply.content@,
        found->0.platform_message_id.deep_view() == reply.platform_message_id.deep_view(),
        found->0.status@ == reply.status@,
        found->0.attempts == reply.attempts,
        found->0.recorded_at == reply.recorded_at,
        found->0.chunks.deep_view() == reply.chunks.deep_view(),
{
    assert(found->0@ == reply@);
}

proof fn lemma_break(s: Seq<char>, i: int, at: int, other: int)
    requires
        i < s.len(),
        0 < at <= i,
        is_white(s[at]),
        forall|j: int| at < j <= i ==> !is_white(#[trigger] s[j]),
    ensures
        last_white(s, i, other) == at,
    decreases i,
{
    if i > at {
        assert(!is_white(s[i]));
        lemma_break(s, i - 1, at, other);
    }
}

proof fn lemma_no_break(s: Seq<char>, i: int, other: int)
    requires
        i < s.len(),
        forall|j: int| 0 < j <= i ==> !is_white(#[trigger] s[j]),
    ensures
        last_white(s, i, other) == other,
    decreases i,
{
    if i > 0 {
        assert(!is_white(s[i]));
        lemma_no_break(s, i - 1, other);
    }
}

/// A text that fits is one piece, trimmed. A longer one is broken at the last
/// white space within the limit, and after the limit where there is none; what
/// follows is split in the same way.
pub proof fn law_where_a_text_is_broken(
    text: &str,
    rest: &str,
    max: usize,
    at: int,
    pieces: Vec<String>,
    more: Vec<String>,
)
    requires
        max > 0,
        !is_blank(text@),
        call_ensures(split_text, (text, max), pieces),
        call_ensures(split_text, (rest, max), more),
    ensures
        ({
            let t = trimmed(text@);
            let here = 0 < at < max && is_white(t[at]) && (forall|j: int|
                at < j < max ==> !is_white(#[trigger] t[j])) || at == max && (forall|j: int|
                0 < j < max ==> !is_white(#[trigger] t[j]));
            &&& t.len() <= max ==> pieces@.len() == 1 && pieces@[0]@ == t
            &&& t.len() > max && here && rest@ == t.skip(at) ==> pieces@[0]@ == trimmed(t.take(at))
                && pieces.deep_view().drop_first() == more.deep_view()
        }),
{
    let t = trimmed(text@);
    let m = max as int;
    lemma_trimmed(text@);
    assert(pieces.deep_view().len() == pieces@.len());
    if t.len() <= max {
        assert(pieces.deep_view()[0] == pieces@[0]@);
    } else {
        let here = 0 < at < max && is_white(t[at]) && (forall|j: int|
            at < j < max ==> !is_white(#[trigger] t[j])) || at == max && (forall|j: int|
            0 < j < max ==> !is_white(#[trigger] t[j]));
        if here && rest@ == t.skip(at) {
            if at < max {
                lemma_break(t, m - 1, at, m);
            } else {
                lemma_no_break(t, m - 1, m);
            }
            assert(chunk_end(t, m) == at);
            let tail = t.skip(at);
            lemma_trimmed_start(tail);
            let left = trimmed_start(tail);
            assert(pieces.deep_view() =~= seq![trimmed(t.take(at))] + chunks(left, m));
            assert(pieces.deep_view()[0] == pieces@[0]@);
            assert(pieces.deep_view().drop_first() =~= chunks(left, m));
            assert(tail.last() == t.last());
            assert(!is_white(tail.last()));
            lemma_solid_end(tail);
        }
    }
}

proof fn lemma_solid_end(tail: Seq<char>)
    requires
        tail.len() > 0,
        !is_white(tail.last()),
    ensures
        trimmed(tail) == trimmed_start(tail),
        !is_blank(tail),
{
    lemma_trimmed_start(tail);
    let left = trimmed_start(tail);
    lemma_solid_kept(tail);
    assert(left.len() > 0);
    assert(left.last() == tail.last());
    assert(trimmed(tail) == left);
}

proof fn lemma_solid_kept(tail: Seq<char>)
    requires
        tail.len() > 0,
        !is_white(tail.last()),
    ensures
        trimmed_start(tail).len() > 0,
    decreases tail.len(),
{
    if is_white(tail[0]) {
        assert(tail.len() > 1);
        let rest = tail.drop_first();
        assert(rest.last() == tail.last());
        lemma_solid_kept(rest);
    }
}

/// How long the next try waits: as long as a rate limit asks, but no less than
/// one second and no more than thirty; else as many seconds as there were tries.
pub proof fn law_how_long_to_wait(
    text: &str,
    state: SendState,
    outcome: Result<SendResult, FrankClawError>,
    step: SendStep,
)
    requires
        state.attempts < 2,
        !(outcome is Ok && outcome->Ok_0 is Sent),
        call_ensures(send_outbound_chunk, (text, state, outcome), step),
    ensures
        step is Retry,
        match outcome {
            Ok(SendResult::RateLimited { retry_after_secs: Some(secs) }) => {
                &&& secs == 0 ==> step->after_secs == 1
                &&& secs > 30 ==> step->after_secs == 30
                &&& 1 <= secs <= 30 ==> step->after_secs == secs
                &&& step->state.last_retry_after == Some(secs)
            },
            Ok(SendResult::RateLimited { retry_after_secs: None }) => step->after_secs
                == state.attempts + 1 && step->state.last_retry_after is None,
            _ => step->after_secs == state.attempts + 1 && step->state.last_retry_after
                == state.last_retry_after,
        },
{
}

/// Whatever happens to a part, what was recorded before stays; a part that was
/// sent lets the next one start afresh; a part that was not is tried again, the
/// same one; and after the third try the delivery is over.
pub proof fn law_delivery_goes_on(
    d: Delivery,
    outcome: Result<SendResult, FrankClawError>,
    step: DeliveryStep,
    i: int,
)
    requires
        d.wf(),
        call_ensures(Delivery::on_outcome, (d, outcome), step),
    ensures
        step is Retry <==> !(outcome is Ok && outcome->Ok_0 is Sent) && d.state.attempts < 2,
        step is Retry ==> step->delivery.pieces == d.pieces && step->delivery.record == d.record
            && step->delivery.state.attempts == d.state.attempts + 1,
        step is GiveUp <==> outcome is Err && d.state.attempts == 2,
        step is GiveUp ==> step->GiveUp_0 == outcome->Err_0,
        step is Send ==> step->Send_0.state.attempts == 0 && step->Send_0.pieces == d.pieces,
        step is Send && 0 <= i < d.record.chunks@.len() ==> step->Send_0.record.chunks@[i]@
            == d.record.chunks@[i]@,
        step is Finished && 0 <= i < d.record.chunks@.len() ==> step->Finished_0.chunks@[i]@
            == d.record.chunks@[i]@,
        outcome is Ok && outcome->Ok_0 is RateLimited && d.state.attempts == 2 ==> step is Finished
            && step->Finished_0.status == DeliveryStatus::RateLimited
            && step->Finished_0.retry_after_secs == outcome->Ok_0->retry_after_secs,
        step is Finished ==> step->Finished_0.chunks@.len() == d.record.chunks@.len() + 1,
        step is Finished && step->Finished_0.status == DeliveryStatus::Sent
            ==> step->Finished_0.chunks@.len() == d.pieces@.len(),
{
    let before = d.record.chunks.deep_view();
    assert(before.len() == d.record.chunks@.len());
    assert(d.pieces.deep_view().len() == d.pieces@.len());
    if step is Send {
        let after = step->Send_0.record.chunks;
        assert(after.deep_view().len() == after@.len());
        if 0 <= i < d.record.chunks@.len() {
            assert(after.deep_view()[i] == after@[i]@);
            assert(before[i] == d.record.chunks@[i]@);
        }
    }
    if step is Finished {
        let after = step->Finished_0.chunks;
        assert(after.deep_view().len() == after@.len());
        if 0 <= i < d.record.chunks@.len() {
            assert(after.deep_view()[i] == after@[i]@);
            assert(before[i] == d.record.chunks@[i]@);
        }
    }
}

} // verus!
