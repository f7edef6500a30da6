//! Properties that hold across the library's functions.
use crate::json::{escaped, json_document_of, quoted, JsonField};
use crate::models::{array_text, assets_text, auth_text, markets_text, decode_result, decodes_to, lookup, subscription_text, update_from_fields, DecodeError, MarketUpdate};
use crate::session::{decode_action, heartbeat_text, is_run, step_spec, Action, Event, Frame, Phase, Session};
use vstd::prelude::*;

verus! {

/// With at least one asset id, the subscription envelope is the `type`
/// member set to `market` followed by the `assets_ids` member listing the
/// ids in their order, and nothing else.
pub proof fn lemma_subscription_lists_assets(ids: Seq<Seq<char>>)
    requires
        ids.len() > 0,
    ensures
        subscription_text(ids) == "{\"type\":\"market\",\"assets_ids\":"@ + array_text(ids) + "}"@,
{
    reveal_strlit("{\"type\":\"market\",\"assets_ids\":");
    reveal_strlit("}");
    reveal_strlit("\"type\":");
    reveal_strlit(",\"assets_ids\":");
    reveal_strlit("market");
    reveal_strlit("\"market\"");
    assert(quoted("market"@) =~= "\"market\""@) by {
        reveal_with_fuel(escaped, 7);
    }
    let q = quoted("market"@);
    assert(subscription_text(ids) == seq!['{'] + auth_text(None) + "\"type\":"@ + q
        + assets_text(ids) + markets_text(seq![]) + seq!['}']);
    assert(auth_text(None) =~= seq![]);
    assert(markets_text(seq![]) =~= seq![]);
    assert(assets_text(ids) == ",\"assets_ids\":"@ + array_text(ids));
    assert(subscription_text(ids) =~= "{\"type\":\"market\",\"assets_ids\":"@ + array_text(ids)
        + "}"@);
}

/// With no asset ids, the envelope has no `assets_ids` member.
pub proof fn lemma_subscription_without_assets()
    ensures
        subscription_text(seq![]) == "{\"type\":\"market\"}"@,
{
    reveal_strlit("{\"type\":\"market\"}");
    reveal_strlit("\"type\":");
    reveal_strlit("market");
    reveal_with_fuel(escaped, 7);
    assert(subscription_text(seq![]) =~= "{\"type\":\"market\"}"@);
}

/// An object whose `marketId`, `price`, `outcome` and `timestamp` members
/// hold a string, a number, a string and a non-negative integer decodes,
/// and only to the update holding those values, with the `marketId` string
/// as its market id.
pub proof fn lemma_valid_update_decodes(
    text: Seq<char>,
    f: Seq<(String, JsonField)>,
    id: String,
    as_int: Option<u64>,
    price: serde_json::Number,
    outcome: String,
    timestamp: u64,
    timestamp_number: serde_json::Number,
)
    requires
        json_document_of(text) == Some(Some(f)),
        lookup(f, "marketId"@) == Some(JsonField::Str(id)),
        lookup(f, "price"@) == Some(JsonField::Number(as_int, price)),
        lookup(f, "outcome"@) == Some(JsonField::Str(outcome)),
        lookup(f, "timestamp"@) == Some(JsonField::Number(Some(timestamp), timestamp_number)),
    ensures
        forall|r: Result<MarketUpdate, DecodeError>|
            decode_result(text, r) <==> r == Ok::<MarketUpdate, DecodeError>(
                MarketUpdate { market_id: id, price, outcome, timestamp },
            ),
        decodes_to(text, MarketUpdate { market_id: id, price, outcome, timestamp }),
{
    assert(update_from_fields(f) == Ok::<MarketUpdate, DecodeError>(
        MarketUpdate { market_id: id, price, outcome, timestamp },
    ));
}

/// A streaming session that receives a text that is no market update
/// rejects it and stays as it was, so a market update received next is
/// delivered.
pub proof fn lemma_bad_frame_keeps_streaming(
    s0: Session,
    bad: String,
    s1: Session,
    a1: Action,
    good: String,
    s2: Session,
    a2: Action,
    u: MarketUpdate,
)
    requires
        s0.phase == Phase::Streaming,
        !exists|v: MarketUpdate| decodes_to(bad@, v),
        decodes_to(good@, u),
        step_spec(s0, Event::Received(Frame::Text(bad)), s1, a1),
        step_spec(s1, Event::Received(Frame::Text(good)), s2, a2),
    ensures
        s1 == s0,
        a1 matches Action::Reject(raw, _) && raw == bad,
        s2 == s0,
        a2 == Action::Deliver(u),
{
    let r1 = choose|r| decode_result(bad@, r) && a1 == #[trigger] decode_action(bad, r);
    if let Ok(v) = r1 {
        if let Some(Some(f)) = json_document_of(bad@) {
            assert(update_from_fields(f) == Ok::<MarketUpdate, DecodeError>(v));
            assert(decodes_to(bad@, v));
        }
    }
    let r2 = choose|r| decode_result(good@, r) && a2 == #[trigger] decode_action(good, r);
    let f = choose|f: Seq<(String, JsonField)>|
        json_document_of(good@) == Some(Some(f)) && #[trigger] update_from_fields(f) == Ok::<
            MarketUpdate,
            DecodeError,
        >(u);
    assert(r2 == Ok::<MarketUpdate, DecodeError>(u));
}

/// A step keeps a session well formed.
pub proof fn lemma_step_keeps_wf(pre: Session, e: Event, post: Session, a: Action)
    requires
        pre.wf(),
        step_spec(pre, e, post, a),
    ensures
        post.wf(),
{
}

/// Every state of a run from a well-formed state is well formed.
pub proof fn lemma_run_keeps_wf(states: Seq<Session>, events: Seq<Event>, actions: Seq<Action>, i: int)
    requires
        is_run(states, events, actions),
        states[0].wf(),
        0 <= i < states.len(),
    ensures
        states[i].wf(),
    decreases i,
{
    if i > 0 {
        lemma_run_keeps_wf(states, events, actions, i - 1);
        let j = i - 1;
        assert(step_spec(states[j], events[j], states[j + 1], actions[j]));
        lemma_step_keeps_wf(states[j], events[j], states[j + 1], actions[j]);
    }
}

/// A session writes one frame at a time, in every run (such as the one that
/// `Session::run` passes through): it asks for a send only where no
/// frame is going out, or where the one going out has just been reported
/// sent, and a frame is going out after each send it asks for.
pub proof fn lemma_single_writer(states: Seq<Session>, events: Seq<Event>, actions: Seq<Action>)
    requires
        is_run(states, events, actions),
        states[0].wf(),
    ensures
        forall|i: int|
            0 <= i < actions.len() && #[trigger] actions[i] is Send ==> (states[i].writing
                ==> events[i] is Sent) && states[i + 1].writing,
{
    assert forall|i: int| 0 <= i < actions.len() && #[trigger] actions[i] is Send implies (
    states[i].writing ==> events[i] is Sent) && states[i + 1].writing by {
        lemma_run_keeps_wf(states, events, actions, i);
        assert(step_spec(states[i], events[i], states[i + 1], actions[i]));
    }
}

/// How many heartbeats `events` asks for.
pub open spec fn count_ticks(events: Seq<Event>) -> nat
    decreases events.len(),
{
    if events.len() == 0 {
        0
    } else {
        count_ticks(events.drop_last()) + if events.last() is HeartbeatDue {
            1nat
        } else {
            0nat
        }
    }
}

/// How many heartbeat frames `actions` sends.
pub open spec fn count_heartbeats(actions: Seq<Action>) -> nat
    decreases actions.len(),
{
    if actions.len() == 0 {
        0
    } else {
        count_heartbeats(actions.drop_last()) + if actions.last() matches Action::Send(t) && t@
            == heartbeat_text() {
            1nat
        } else {
            0nat
        }
    }
}

/// While a session streams, in every run (such as the one that
/// `Session::run` passes through), each heartbeat asked for is sent once: the
/// heartbeats sent, with the one still waiting for the socket, are as many
/// as were asked for. The generator hands over at most one heartbeat at a
/// time, so none is asked for while one still waits.
pub proof fn lemma_heartbeat_cadence(states: Seq<Session>, events: Seq<Event>, actions: Seq<Action>)
    requires
        is_run(states, events, actions),
        forall|i: int| 0 <= i < states.len() ==> (#[trigger] states[i]).phase == Phase::Streaming,
        !states[0].heartbeat_pending,
        forall|i: int|
            0 <= i < events.len() && #[trigger] events[i] is HeartbeatDue
                ==> !states[i].heartbeat_pending,
    ensures
        count_heartbeats(actions) + (if states.last().heartbeat_pending {
            1nat
        } else {
            0nat
        }) == count_ticks(events),
    decreases events.len(),
{
    if events.len() > 0 {
        let n = events.len() - 1;
        let st = states.drop_last();
        let ev = events.drop_last();
        let ac = actions.drop_last();
        assert forall|i: int| 0 <= i < ev.len() implies #[trigger] step_spec(
            st[i],
            ev[i],
            st[i + 1],
            ac[i],
        ) by {
            assert(step_spec(states[i], events[i], states[i + 1], actions[i]));
        }
        assert forall|i: int| 0 <= i < st.len() implies (#[trigger] st[i]).phase
            == Phase::Streaming by {
            assert(states[i].phase == Phase::Streaming);
        }
        assert forall|i: int| 0 <= i < ev.len() && #[trigger] ev[i] is HeartbeatDue
            implies !st[i].heartbeat_pending by {
            assert(events[i] is HeartbeatDue);
        }
        lemma_heartbeat_cadence(st, ev, ac);
        assert(step_spec(states[n], events[n], states[n + 1], actions[n]));
        assert(states[n].phase == Phase::Streaming);
        assert(states[n + 1].phase == Phase::Streaming);
        reveal_strlit("PING");
    }
}

} // verus!
