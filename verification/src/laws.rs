//! The correlation engine's guarantees, stated and proved over its
//! abstract state: ordering of direct emissions, the pairing of buffered
//! control-stream events with their session event, packet assembly and
//! finalization, independence of connections, and the silently discarding
//! mode of an engine without output.

use vstd::prelude::*;

use crate::events::Event;
use crate::quic_10::data::QuicFrame;
use crate::writer::{
    finalize_sent_from, is_pending_session_stream, model_wf, packet_sent_with_frame,
    patched_with_group_id, recv_has_key, recv_index_of, recv_keys_unique, recv_matches,
    sent_has_key, sent_index_of, sent_keys_unique, sent_matches, submit_emits,
    submit_model_after, submit_pending_after, lemma_recv_index_of, lemma_sent_index_of,
    lemma_sent_unique_remove, PacketNum, ReceivedEntry, SentEntry, WriterModel,
};
use crate::events::is_session_started_client;

verus! {

/// The concatenated trace contribution of a sequence of submissions,
/// oldest first.
pub open spec fn submit_trace(m: WriterModel, es: Seq<Event>) -> Seq<Event>
    decreases es.len(),
{
    if es.len() == 0 {
        Seq::<Event>::empty()
    } else {
        submit_emits(m, es[0]) + submit_trace(submit_model_after(m, es[0]), es.drop_first())
    }
}

/// For a sequence of submissions none of which is a pending
/// control-stream event, made with output enabled, the header written and
/// nothing buffered, the trace receives exactly the submitted events in
/// call order.
pub proof fn lemma_submit_order_preserved(m: WriterModel, es: Seq<Event>)
    requires
        m.enabled,
        m.header_written,
        m.pending.len() == 0,
        forall|i: int| 0 <= i < es.len() ==> !is_pending_session_stream(#[trigger] es[i]),
    ensures
        submit_trace(m, es) == es,
    decreases es.len(),
{
    if es.len() == 0 {
        assert(submit_trace(m, es) =~= es);
    } else {
        let e = es[0];
        let m1 = submit_model_after(m, e);
        assert(m1.pending.len() == 0);
        assert forall|i: int|
            0 <= i < es.drop_first().len() implies !is_pending_session_stream(
            #[trigger] es.drop_first()[i],
        ) by {
            assert(es.drop_first()[i] == es[i + 1]);
        }
        lemma_submit_order_preserved(m1, es.drop_first());
        assert(submit_emits(m, e) =~= seq![e]);
        assert(submit_trace(m, es) =~= seq![e] + es.drop_first());
        assert(seq![e] + es.drop_first() =~= es);
    }
}

/// A control-stream event still carrying the placeholder id, followed by
/// the locally initiated session event that knows the real id G: the
/// first submission emits nothing and buffers the stream event; the
/// second emits the stream event patched to G strictly before the session
/// event, and afterwards nothing stays buffered. The placeholder id never
/// reaches the output: the emitted stream record carries the session
/// event's id.
pub proof fn lemma_stream_pairing(m: WriterModel, e1: Event, e2: Event)
    requires
        m.enabled,
        m.header_written,
        m.pending.len() == 0,
        is_pending_session_stream(e1),
        is_session_started_client(e2),
    ensures
        submit_emits(m, e1) == Seq::<Event>::empty(),
        submit_model_after(m, e1).pending == seq![e1],
        ({
            let m1 = submit_model_after(m, e1);
            let out = submit_emits(m1, e2);
            &&& out.len() == 2
            &&& out[0] == patched_with_group_id(e1, e2)
            &&& out[0].group_id == e2.group_id
            &&& out[0].name == e1.name
            &&& out[0].data == e1.data
            &&& out[0].time == e1.time
            &&& out[1] == e2
            &&& submit_pending_after(m1, e2).len() == 0
        }),
{
    assert(submit_pending_after(m, e1) =~= seq![e1]);
    let m1 = submit_model_after(m, e1);
    assert(!is_pending_session_stream(e2));
    assert(submit_emits(m1, e2) =~= seq![patched_with_group_id(e1, e2), e2]);
}

/// Removing the entry at a position that does not match a key leaves that
/// key's presence, and the record stored under it, unchanged.
pub proof fn lemma_remove_other_key(s: Seq<SentEntry>, i: int, cid: Seq<char>, num: PacketNum)
    requires
        0 <= i < s.len(),
        !sent_matches(s[i], cid, num),
        sent_keys_unique(s),
    ensures
        sent_has_key(s.remove(i), cid, num) == sent_has_key(s, cid, num),
        sent_has_key(s, cid, num) ==> s.remove(i)[sent_index_of(s.remove(i), cid, num)] == s[
            sent_index_of(s, cid, num)],
{
    lemma_sent_index_of(s, cid, num);
    lemma_sent_index_of(s.remove(i), cid, num);
    if sent_has_key(s, cid, num) {
        let a = sent_index_of(s, cid, num);
        let a2: int = if a < i {
            a
        } else {
            a - 1
        };
        assert(s.remove(i)[a2] == s[a]);
        assert(sent_has_key(s.remove(i), cid, num));
        let b = sent_index_of(s.remove(i), cid, num);
        let b0: int = if b < i {
            b
        } else {
            b + 1
        };
        assert(s.remove(i)[b] == s[b0]);
        assert(sent_matches(s[b0], cid, num));
        if b0 != a {
            assert(sent_matches(s[a], cid, num));
            assert(false);
        }
    } else {
        if sent_has_key(s.remove(i), cid, num) {
            let b = choose|b: int|
                0 <= b < s.remove(i).len() && sent_matches(s.remove(i)[b], cid, num);
            let b0: int = if b < i {
                b
            } else {
                b + 1
            };
            assert(s.remove(i)[b] == s[b0]);
            assert(sent_has_key(s, cid, num));
        }
    }
}

/// Caching a packet under a fresh key and then appending two frames
/// touches exactly the new record: the first append lands at the cached
/// position, and so does the second. Finalizing that single key then
/// emits exactly one completed record — its header the cached header, its
/// frame list the cached frames followed by the two appended frames in
/// order — reports nothing missing, removes the key, and leaves the rest
/// of the cache exactly as it was.
pub proof fn lemma_packet_assembly(
    s0: Seq<SentEntry>,
    e0: SentEntry,
    e1: SentEntry,
    e2: SentEntry,
    f1: QuicFrame,
    f2: QuicFrame,
)
    requires
        sent_keys_unique(s0),
        !sent_has_key(s0, e0.cid@, e0.packet_num),
        e1.cid@ == e0.cid@ && e1.packet_num == e0.packet_num,
        e2.cid@ == e0.cid@ && e2.packet_num == e0.packet_num,
        packet_sent_with_frame(e1.packet, e0.packet, f1),
        packet_sent_with_frame(e2.packet, e1.packet, f2),
    ensures
        sent_index_of(s0.push(e0), e0.cid@, e0.packet_num) == s0.len(),
        sent_index_of(s0.push(e0).update(s0.len() as int, e1), e0.cid@, e0.packet_num)
            == s0.len(),
        ({
            let assembled = s0.push(e0).update(s0.len() as int, e1).update(s0.len() as int, e2);
            let fin = finalize_sent_from(assembled, e0.cid@, seq![e0.packet_num], 0);
            &&& fin.missing.len() == 0
            &&& fin.emitted.len() == 1
            &&& (fin.emitted[0].frames matches Some(fs) && fs@ == (match e0.packet.frames {
                Some(o) => o@,
                None => Seq::<QuicFrame>::empty(),
            }).push(f1).push(f2))
            &&& fin.emitted[0].header == e0.packet.header
            &&& fin.cache == s0
            &&& !sent_has_key(fin.cache, e0.cid@, e0.packet_num)
        }),
{
    let cid = e0.cid@;
    let num = e0.packet_num;
    let cached = s0.push(e0);
    lemma_sent_index_of(cached, cid, num);
    assert(sent_matches(cached[s0.len() as int], cid, num));
    assert(sent_has_key(cached, cid, num));
    if sent_index_of(cached, cid, num) < s0.len() {
        assert(sent_matches(s0[sent_index_of(cached, cid, num)], cid, num));
        assert(sent_has_key(s0, cid, num));
        assert(false);
    }
    let once = cached.update(s0.len() as int, e1);
    lemma_sent_index_of(once, cid, num);
    assert(sent_matches(once[s0.len() as int], cid, num));
    assert(sent_has_key(once, cid, num));
    if sent_index_of(once, cid, num) < s0.len() {
        assert(sent_matches(s0[sent_index_of(once, cid, num)], cid, num));
        assert(false);
    }
    let assembled = once.update(s0.len() as int, e2);
    lemma_sent_index_of(assembled, cid, num);
    assert(sent_matches(assembled[s0.len() as int], cid, num));
    assert(sent_has_key(assembled, cid, num));
    if sent_index_of(assembled, cid, num) < s0.len() {
        assert(sent_matches(s0[sent_index_of(assembled, cid, num)], cid, num));
        assert(false);
    }
    let i = sent_index_of(assembled, cid, num);
    assert(i == s0.len());
    let fin = finalize_sent_from(assembled, cid, seq![num], 0);
    assert(seq![num][0] == num);
    let fin1 = finalize_sent_from(assembled.remove(i), cid, seq![num], 1);
    assert(fin1.cache == assembled.remove(i));
    assert(fin1.emitted.len() == 0);
    assert(fin1.missing.len() == 0);
    assert(fin.emitted =~= seq![assembled[i].packet]);
    assert(assembled[i] == e2);
    assert(assembled.remove(i) =~= s0);
    assert(fin.cache == s0);
    assert(fin.missing.len() == 0);
    if sent_has_key(s0, cid, num) {
        assert(false);
    }
    assert(e2.packet.frames matches Some(fs2) && fs2@ == (match e1.packet.frames {
        Some(o) => o@,
        None => Seq::<QuicFrame>::empty(),
    }).push(f2));
    assert(e1.packet.frames matches Some(fs1) && fs1@ == (match e0.packet.frames {
        Some(o) => o@,
        None => Seq::<QuicFrame>::empty(),
    }).push(f1));
}

/// Finalizing a key that holds no record emits nothing, reports exactly
/// that key as missing, and leaves every cached record as it was.
pub proof fn lemma_finalize_unknown_key(s: Seq<SentEntry>, cid: Seq<char>, num: PacketNum)
    requires
        !sent_has_key(s, cid, num),
    ensures
        ({
            let fin = finalize_sent_from(s, cid, seq![num], 0);
            &&& fin.emitted.len() == 0
            &&& fin.missing == seq![num]
            &&& fin.cache == s
        }),
{
    let fin = finalize_sent_from(s, cid, seq![num], 0);
    assert(seq![num][0] == num);
    let fin1 = finalize_sent_from(s, cid, seq![num], 1);
    assert(fin1.cache == s);
    assert(fin1.emitted.len() == 0);
    assert(fin1.missing.len() == 0);
    assert(fin.missing =~= seq![num]);
}

/// Connections are independent: finalizing any batch of keys of one
/// connection never observes or affects the records of another. Whether
/// another connection's key is cached, and the record stored under it,
/// are exactly as before, even when the two connections use identical
/// packet-number values.
pub proof fn lemma_connection_independence(
    s: Seq<SentEntry>,
    cid1: Seq<char>,
    nums: Seq<PacketNum>,
    k: int,
    cid2: Seq<char>,
    num2: PacketNum,
)
    requires
        sent_keys_unique(s),
        cid2 != cid1,
    ensures
        ({
            let fin = finalize_sent_from(s, cid1, nums, k);
            &&& sent_keys_unique(fin.cache)
            &&& sent_has_key(fin.cache, cid2, num2) == sent_has_key(s, cid2, num2)
            &&& (sent_has_key(s, cid2, num2) ==> fin.cache[sent_index_of(
                fin.cache,
                cid2,
                num2,
            )] == s[sent_index_of(s, cid2, num2)])
        }),
    decreases nums.len() - k,
{
    if k < 0 || k >= nums.len() {
    } else {
        if sent_has_key(s, cid1, nums[k]) {
            let i = sent_index_of(s, cid1, nums[k]);
            lemma_sent_index_of(s, cid1, nums[k]);
            assert(sent_matches(s[i], cid1, nums[k]));
            assert(!sent_matches(s[i], cid2, num2));
            lemma_sent_unique_remove(s, i);
            lemma_remove_other_key(s, i, cid2, num2);
            lemma_connection_independence(s.remove(i), cid1, nums, k + 1, cid2, num2);
        } else {
            lemma_connection_independence(s, cid1, nums, k + 1, cid2, num2);
        }
    }
}

/// The received cache is independent across connections in the same way:
/// finalizing one connection's key removes only that entry, so whether
/// another connection's key is cached, and the record stored under it,
/// are exactly as before, even when the packet-number values coincide.
pub proof fn lemma_recv_remove_other_key(
    s: Seq<ReceivedEntry>,
    i: int,
    cid: Seq<char>,
    num: PacketNum,
)
    requires
        0 <= i < s.len(),
        !recv_matches(s[i], cid, num),
        recv_keys_unique(s),
    ensures
        recv_has_key(s.remove(i), cid, num) == recv_has_key(s, cid, num),
        recv_has_key(s, cid, num) ==> s.remove(i)[recv_index_of(s.remove(i), cid, num)] == s[
            recv_index_of(s, cid, num)],
{
    lemma_recv_index_of(s, cid, num);
    lemma_recv_index_of(s.remove(i), cid, num);
    if recv_has_key(s, cid, num) {
        let a = recv_index_of(s, cid, num);
        let a2: int = if a < i {
            a
        } else {
            a - 1
        };
        assert(s.remove(i)[a2] == s[a]);
        assert(recv_has_key(s.remove(i), cid, num));
        let b = recv_index_of(s.remove(i), cid, num);
        let b0: int = if b < i {
            b
        } else {
            b + 1
        };
        assert(s.remove(i)[b] == s[b0]);
        assert(recv_matches(s[b0], cid, num));
        if b0 != a {
            assert(recv_matches(s[a], cid, num));
            assert(false);
        }
    } else {
        if recv_has_key(s.remove(i), cid, num) {
            let b = choose|b: int|
                0 <= b < s.remove(i).len() && recv_matches(s.remove(i)[b], cid, num);
            let b0: int = if b < i {
                b
            } else {
                b + 1
            };
            assert(s.remove(i)[b] == s[b0]);
            assert(recv_has_key(s, cid, num));
        }
    }
}

/// With no output configured the engine accepts and silently discards:
/// the header counts as written, so nothing is refused; no submission
/// emits an event or changes the buffered queue.
pub proof fn lemma_disabled_discards(m: WriterModel, e: Event)
    requires
        model_wf(m),
        !m.enabled,
    ensures
        m.header_written,
        submit_emits(m, e) == Seq::<Event>::empty(),
        submit_model_after(m, e) == m,
        model_wf(submit_model_after(m, e)),
{
    assert(submit_pending_after(m, e) == m.pending);
}

} // verus!
