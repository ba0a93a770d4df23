//! The replication tick: the per-frame procedure that applies inbound
//! field values and re-publishes local authoritative fields.
//!
//! Once per frame, for every wire type `M` with at least one directive, the
//! driver drains the transport's inbound buffer for `M` into a fresh list
//! of envelopes (tagged with the sender's connection id on the server) and
//! calls [`server_sync`] or [`client_sync`] on the locally known replicated
//! objects.  For each object the tick first applies the newest accepted
//! envelope (`From`, and the follow side of `ToFrom`), then publishes the
//! resulting local value (`To`, and the publish side of `ToFrom`).  The
//! caller performs the returned send instructions; an envelope whose
//! object id matches no local object is dropped silently.
//!
//! Objects that carry no directive for `M` are never handed to the tick,
//! and nothing else writes replicated fields, so they stay entirely under
//! local authority whatever traffic arrives.

use vstd::prelude::*;

use crate::net::{CId, CidSpec, NetComp, NetCompMsg, NetDirection, NetEntity};

verus! {

/// One locally known replicated object for one wire type `M`: its stable
/// entity id, its directive, and the current local field value already
/// projected into wire representation.
#[derive(Copy, Clone, Eq, PartialEq, Debug)]
pub struct SyncObj<M> {
    /// The cross-peer object id.
    pub ent: NetEntity,
    /// The field's sync directive.
    pub comp: NetComp,
    /// The current local field value, in wire representation.
    pub val: M,
}

/// An inbound envelope on the server: the sender's connection id and the
/// wire message.
#[derive(Copy, Clone, Eq, PartialEq, Debug)]
pub struct ServerMsg<M> {
    /// Which connection the envelope arrived from.
    pub cid: CId,
    /// The envelope itself.
    pub msg: NetCompMsg<M>,
}

/// An outbound instruction from a server tick: send `msg` to the peers
/// matched by `to`.
#[derive(Copy, Clone, Eq, PartialEq, Debug)]
pub struct SendCmd<M> {
    /// Which peers receive the envelope.
    pub to: CidSpec,
    /// The envelope to send.
    pub msg: NetCompMsg<M>,
}

/// Whether envelope `e` is accepted for the object with id `id` by a
/// follower directive whose source spec is `from`.
pub open spec fn env_matches<M>(e: ServerMsg<M>, id: u64, from: CidSpec) -> bool {
    e.msg.id == id && from.spec_matches(e.cid)
}

/// The payload of the last envelope in `msgs` (in ingestion order) that is
/// accepted for object `id` from `from`, if any.
pub open spec fn latest_from<M>(msgs: Seq<ServerMsg<M>>, id: u64, from: CidSpec) -> Option<M>
    decreases msgs.len(),
{
    if msgs.len() == 0 {
        None
    } else if env_matches(msgs.last(), id, from) {
        Some(msgs.last().msg.msg)
    } else {
        latest_from(msgs.drop_last(), id, from)
    }
}

/// The payload of the last envelope in `msgs` whose object id is `id`, if
/// any.  On a client every envelope comes from the one server, so no
/// sender filter applies.
pub open spec fn latest_for<M>(msgs: Seq<NetCompMsg<M>>, id: u64) -> Option<M>
    decreases msgs.len(),
{
    if msgs.len() == 0 {
        None
    } else if msgs.last().id == id {
        Some(msgs.last().msg)
    } else {
        latest_for(msgs.drop_last(), id)
    }
}

/// `v` if present, else `d`.
pub open spec fn opt_or<M>(v: Option<M>, d: M) -> M {
    match v {
        Some(x) => x,
        None => d,
    }
}

/// The field value of `o` after a server tick ingested `msgs`: followers
/// take the latest accepted envelope and keep the stale value when none
/// arrived; authoritative fields are untouched.
pub open spec fn server_applied_val<M>(o: SyncObj<M>, msgs: Seq<ServerMsg<M>>) -> M {
    match o.comp.dir {
        NetDirection::From(from) => opt_or(latest_from(msgs, o.ent.id, from), o.val),
        NetDirection::ToFrom(_, from) => opt_or(latest_from(msgs, o.ent.id, from), o.val),
        NetDirection::To(_) => o.val,
    }
}

/// `o` after the apply phase of a server tick: only the field value may
/// change.
pub open spec fn server_apply_obj<M>(o: SyncObj<M>, msgs: Seq<ServerMsg<M>>) -> SyncObj<M> {
    SyncObj { ent: o.ent, comp: o.comp, val: server_applied_val(o, msgs) }
}

/// The send instruction the publish phase emits for an already-applied
/// object, if its directive has a publish side.
pub open spec fn server_send_of<M>(o: SyncObj<M>) -> Option<SendCmd<M>> {
    match o.comp.dir {
        NetDirection::To(to) => Some(
            SendCmd { to, msg: NetCompMsg { id: o.ent.id, msg: o.val } },
        ),
        NetDirection::ToFrom(to, _) => Some(
            SendCmd { to, msg: NetCompMsg { id: o.ent.id, msg: o.val } },
        ),
        NetDirection::From(_) => None,
    }
}

/// All send instructions of a server tick over `objs`, in object order,
/// each publishing the post-apply field value.
pub open spec fn server_sends<M>(objs: Seq<SyncObj<M>>, msgs: Seq<ServerMsg<M>>) -> Seq<
    SendCmd<M>,
>
    decreases objs.len(),
{
    if objs.len() == 0 {
        Seq::empty()
    } else {
        let rest = server_sends(objs.drop_last(), msgs);
        match server_send_of(server_apply_obj(objs.last(), msgs)) {
            Some(c) => rest.push(c),
            None => rest,
        }
    }
}

/// The field value of `o` after a client tick ingested `msgs`.  A `ToFrom`
/// directive is not valid on a client: the field is left under purely
/// local control.
pub open spec fn client_applied_val<M>(o: SyncObj<M>, msgs: Seq<NetCompMsg<M>>) -> M {
    match o.comp.dir {
        NetDirection::From(_) => opt_or(latest_for(msgs, o.ent.id), o.val),
        NetDirection::To(_) => o.val,
        NetDirection::ToFrom(_, _) => o.val,
    }
}

/// `o` after the apply phase of a client tick: only the field value may
/// change.
pub open spec fn client_apply_obj<M>(o: SyncObj<M>, msgs: Seq<NetCompMsg<M>>) -> SyncObj<M> {
    SyncObj { ent: o.ent, comp: o.comp, val: client_applied_val(o, msgs) }
}

/// All envelopes a client tick publishes to its one peer, the server, in
/// object order: one per `To` directive.  A `ToFrom` object publishes
/// nothing on a client.
pub open spec fn client_sends<M>(objs: Seq<SyncObj<M>>, msgs: Seq<NetCompMsg<M>>) -> Seq<
    NetCompMsg<M>,
>
    decreases objs.len(),
{
    if objs.len() == 0 {
        Seq::empty()
    } else {
        let rest = client_sends(objs.drop_last(), msgs);
        match objs.last().comp.dir {
            NetDirection::To(_) => rest.push(
                NetCompMsg { id: objs.last().ent.id, msg: client_applied_val(objs.last(), msgs) },
            ),
            _ => rest,
        }
    }
}

/// The object ids, in object order, whose directives are rejected on a
/// client as configuration errors: every `ToFrom` holder.
pub open spec fn client_config_errors<M>(objs: Seq<SyncObj<M>>) -> Seq<u64>
    decreases objs.len(),
{
    if objs.len() == 0 {
        Seq::empty()
    } else {
        let rest = client_config_errors(objs.drop_last());
        match objs.last().comp.dir {
            NetDirection::ToFrom(_, _) => rest.push(objs.last().ent.id),
            _ => rest,
        }
    }
}

/// The latest envelope in `msgs` accepted for object `id` from `from`,
/// scanning in ingestion order.
fn server_latest<M: Copy>(msgs: &Vec<ServerMsg<M>>, id: u64, from: CidSpec) -> (r: Option<M>)
    ensures
        r == latest_from(msgs@, id, from),
{
    let mut r: Option<M> = None;
    let mut i: usize = 0;
    while i < msgs.len()
        invariant
            i <= msgs@.len(),
            r == latest_from(msgs@.take(i as int), id, from),
        decreases msgs@.len() - i,
    {
        let e = msgs[i];
        proof {
            assert(msgs@.take(i + 1).drop_last() =~= msgs@.take(i as int));
            assert(msgs@.take(i + 1).last() == e);
        }
        if e.msg.id == id && from.matches(e.cid) {
            r = Some(e.msg.msg);
        }
        i = i + 1;
    }
    proof {
        assert(msgs@.take(msgs@.len() as int) =~= msgs@);
    }
    r
}

/// The latest envelope in `msgs` for object `id`, scanning in ingestion
/// order.
fn client_latest<M: Copy>(msgs: &Vec<NetCompMsg<M>>, id: u64) -> (r: Option<M>)
    ensures
        r == latest_for(msgs@, id),
{
    let mut r: Option<M> = None;
    let mut i: usize = 0;
    while i < msgs.len()
        invariant
            i <= msgs@.len(),
            r == latest_for(msgs@.take(i as int), id),
        decreases msgs@.len() - i,
    {
        let e = msgs[i];
        proof {
            assert(msgs@.take(i + 1).drop_last() =~= msgs@.take(i as int));
            assert(msgs@.take(i + 1).last() == e);
        }
        if e.id == id {
            r = Some(e.msg);
        }
        i = i + 1;
    }
    proof {
        assert(msgs@.take(msgs@.len() as int) =~= msgs@);
    }
    r
}

/// One server replication tick for wire type `M` over the locally known
/// replicated objects `objs`, given the envelopes `msgs` ingested this
/// frame in arrival order.
///
/// For each object, in order: a `From(spec)` or `ToFrom(_, spec)` object
/// takes the payload of the last ingested envelope whose object id matches
/// and whose sender is matched by `spec`, and keeps its stale value when
/// there is none; then a `To(spec)` or `ToFrom(spec, _)` object publishes
/// its (post-apply) value to the peers matched by `spec`.  The returned
/// instructions are performed by the caller; a failed send is logged there
/// and skipped without affecting other objects.
pub fn server_sync<M: Copy>(objs: &mut Vec<SyncObj<M>>, msgs: &Vec<ServerMsg<M>>) -> (sends: Vec<
    SendCmd<M>,
>)
    ensures
        final(objs)@.len() == old(objs)@.len(),
        forall|k: int|
            0 <= k < old(objs)@.len() ==> final(objs)@[k] == server_apply_obj(
                old(objs)@[k],
                msgs@,
            ),
        sends@ == server_sends(old(objs)@, msgs@),
{
    let mut sends: Vec<SendCmd<M>> = Vec::new();
    let n = objs.len();
    let mut i: usize = 0;
    while i < n
        invariant
            i <= n,
            n == objs@.len(),
            objs@.len() == old(objs)@.len(),
            forall|k: int| 0 <= k < i ==> objs@[k] == server_apply_obj(old(objs)@[k], msgs@),
            forall|k: int| i <= k < n ==> objs@[k] == old(objs)@[k],
            sends@ == server_sends(old(objs)@.take(i as int), msgs@),
        decreases n - i,
    {
        let o = objs[i];
        proof {
            assert(old(objs)@.take(i + 1).drop_last() =~= old(objs)@.take(i as int));
            assert(old(objs)@.take(i + 1).last() == o);
        }
        match o.comp.dir {
            NetDirection::From(from) => {
                if let Some(v) = server_latest(msgs, o.ent.id, from) {
                    objs[i] = SyncObj { ent: o.ent, comp: o.comp, val: v };
                }
            },
            NetDirection::To(to) => {
                sends.push(SendCmd { to, msg: NetCompMsg::new(o.ent.id, o.val) });
            },
            NetDirection::ToFrom(to, from) => {
                let mut val = o.val;
                if let Some(v) = server_latest(msgs, o.ent.id, from) {
                    val = v;
                    objs[i] = SyncObj { ent: o.ent, comp: o.comp, val: v };
                }
                sends.push(SendCmd { to, msg: NetCompMsg::new(o.ent.id, val) });
            },
        }
        i = i + 1;
    }
    proof {
        assert(old(objs)@.take(n as int) =~= old(objs)@);
    }
    sends
}

/// One client replication tick for wire type `M`, given the envelopes
/// ingested this frame in arrival order.  Returns the envelopes to send to
/// the server, and the object ids whose `ToFrom` directives were rejected
/// as configuration errors: those fields are left under purely local
/// control, and the caller reports the fault.
pub fn client_sync<M: Copy>(objs: &mut Vec<SyncObj<M>>, msgs: &Vec<NetCompMsg<M>>) -> (r: (
    Vec<NetCompMsg<M>>,
    Vec<u64>,
))
    ensures
        final(objs)@.len() == old(objs)@.len(),
        forall|k: int|
            0 <= k < old(objs)@.len() ==> final(objs)@[k] == client_apply_obj(
                old(objs)@[k],
                msgs@,
            ),
        r.0@ == client_sends(old(objs)@, msgs@),
        r.1@ == client_config_errors(old(objs)@),
{
    let mut sends: Vec<NetCompMsg<M>> = Vec::new();
    let mut errors: Vec<u64> = Vec::new();
    let n = objs.len();
    let mut i: usize = 0;
    while i < n
        invariant
            i <= n,
            n == objs@.len(),
            objs@.len() == old(objs)@.len(),
            forall|k: int| 0 <= k < i ==> objs@[k] == client_apply_obj(old(objs)@[k], msgs@),
            forall|k: int| i <= k < n ==> objs@[k] == old(objs)@[k],
            sends@ == client_sends(old(objs)@.take(i as int), msgs@),
            errors@ == client_config_errors(old(objs)@.take(i as int)),
        decreases n - i,
    {
        let o = objs[i];
        proof {
            assert(old(objs)@.take(i + 1).drop_last() =~= old(objs)@.take(i as int));
            assert(old(objs)@.take(i + 1).last() == o);
        }
        match o.comp.dir {
            NetDirection::From(_) => {
                if let Some(v) = client_latest(msgs, o.ent.id) {
                    objs[i] = SyncObj { ent: o.ent, comp: o.comp, val: v };
                }
            },
            NetDirection::To(_) => {
                sends.push(NetCompMsg::new(o.ent.id, o.val));
            },
            NetDirection::ToFrom(_, _) => {
                errors.push(o.ent.id);
            },
        }
        i = i + 1;
    }
    proof {
        assert(old(objs)@.take(n as int) =~= old(objs)@);
    }
    (sends, errors)
}

/// Last-writer-wins: if the envelope at index `j` is accepted for object
/// `id` from `from` and no later ingested envelope is, the apply phase
/// takes exactly that envelope's payload — whatever arrived before it.
pub proof fn lemma_latest_from_is_last_match<M>(
    msgs: Seq<ServerMsg<M>>,
    id: u64,
    from: CidSpec,
    j: int,
)
    requires
        0 <= j < msgs.len(),
        env_matches(msgs[j], id, from),
        forall|k: int| j < k < msgs.len() ==> !env_matches(#[trigger] msgs[k], id, from),
    ensures
        latest_from(msgs, id, from) == Some(msgs[j].msg.msg),
    decreases msgs.len(),
{
    if j == msgs.len() - 1 {
    } else {
        assert(!env_matches(msgs.last(), id, from));
        assert(msgs.drop_last()[j] == msgs[j]);
        lemma_latest_from_is_last_match(msgs.drop_last(), id, from, j);
    }
}

/// Last-writer-wins at the tick: when the envelope at index `j` is the
/// last one in the ingest window accepted for a follower object, the tick
/// leaves that object's field at exactly that envelope's payload,
/// whatever arrived before it.
pub proof fn lemma_tick_last_writer_wins<M>(
    o: SyncObj<M>,
    from: CidSpec,
    msgs: Seq<ServerMsg<M>>,
    j: int,
)
    requires
        o.comp.dir == NetDirection::From(from) || (o.comp.dir matches NetDirection::ToFrom(_, f)
            && f == from),
        0 <= j < msgs.len(),
        env_matches(msgs[j], o.ent.id, from),
        forall|k: int| j < k < msgs.len() ==> !env_matches(#[trigger] msgs[k], o.ent.id, from),
    ensures
        server_apply_obj(o, msgs).val == msgs[j].msg.msg,
{
    lemma_latest_from_is_last_match(msgs, o.ent.id, from, j);
}

/// Last-writer-wins on a client: if the envelope at index `j` carries this
/// object's id and no later ingested envelope does, the apply phase takes
/// exactly that envelope's payload.
pub proof fn lemma_latest_for_is_last_match<M>(msgs: Seq<NetCompMsg<M>>, id: u64, j: int)
    requires
        0 <= j < msgs.len(),
        msgs[j].id == id,
        forall|k: int| j < k < msgs.len() ==> (#[trigger] msgs[k]).id != id,
    ensures
        latest_for(msgs, id) == Some(msgs[j].msg),
    decreases msgs.len(),
{
    if j == msgs.len() - 1 {
    } else {
        assert(msgs.drop_last()[j] == msgs[j]);
        lemma_latest_for_is_last_match(msgs.drop_last(), id, j);
    }
}

/// No-directive isolation, envelope side: traffic that never names an
/// object's id leaves that object entirely unchanged by the tick, on
/// server and client alike.
pub proof fn lemma_unmatched_id_isolated<M>(
    o: SyncObj<M>,
    smsgs: Seq<ServerMsg<M>>,
    cmsgs: Seq<NetCompMsg<M>>,
)
    requires
        forall|k: int| 0 <= k < smsgs.len() ==> (#[trigger] smsgs[k]).msg.id != o.ent.id,
        forall|k: int| 0 <= k < cmsgs.len() ==> (#[trigger] cmsgs[k]).id != o.ent.id,
    ensures
        server_apply_obj(o, smsgs) == o,
        client_apply_obj(o, cmsgs) == o,
{
    match o.comp.dir {
        NetDirection::From(from) => lemma_latest_from_none(smsgs, o.ent.id, from),
        NetDirection::ToFrom(_, from) => lemma_latest_from_none(smsgs, o.ent.id, from),
        NetDirection::To(_) => (),
    }
    lemma_latest_for_none(cmsgs, o.ent.id);
}

/// An authoritative (`To`) field is never overwritten by the tick,
/// whatever traffic arrives.
pub proof fn lemma_to_directive_isolated<M>(
    o: SyncObj<M>,
    smsgs: Seq<ServerMsg<M>>,
    cmsgs: Seq<NetCompMsg<M>>,
)
    requires
        o.comp.dir matches NetDirection::To(_),
    ensures
        server_apply_obj(o, smsgs) == o,
        client_apply_obj(o, cmsgs) == o,
{
}

proof fn lemma_latest_from_none<M>(msgs: Seq<ServerMsg<M>>, id: u64, from: CidSpec)
    requires
        forall|k: int| 0 <= k < msgs.len() ==> (#[trigger] msgs[k]).msg.id != id,
    ensures
        latest_from(msgs, id, from) is None,
    decreases msgs.len(),
{
    if msgs.len() > 0 {
        assert(forall|k: int|
            0 <= k < msgs.drop_last().len() ==> (#[trigger] msgs.drop_last()[k]).msg.id != id);
        lemma_latest_from_none(msgs.drop_last(), id, from);
        assert(msgs.last().msg.id != id);
    }
}

proof fn lemma_latest_for_none<M>(msgs: Seq<NetCompMsg<M>>, id: u64)
    requires
        forall|k: int| 0 <= k < msgs.len() ==> (#[trigger] msgs[k]).id != id,
    ensures
        latest_for(msgs, id) is None,
    decreases msgs.len(),
{
    if msgs.len() > 0 {
        assert(forall|k: int|
            0 <= k < msgs.drop_last().len() ==> (#[trigger] msgs.drop_last()[k]).id != id);
        lemma_latest_for_none(msgs.drop_last(), id);
        assert(msgs.last().id != id);
    }
}

/// Whether the client half of the tick should run this frame: the client
/// exists (`Some`) and its connection is open (`true`).
pub fn run_if_client(client_open: Option<bool>) -> (r: bool)
    ensures
        r == (client_open == Some(true)),
{
    match client_open {
        Some(true) => true,
        _ => false,
    }
}

/// Whether the server half of the tick should run this frame: the server
/// exists.
pub fn run_if_server(server_present: bool) -> (r: bool)
    ensures
        r == server_present,
{
    server_present
}

/// Whether the host-only systems should run this frame: both roles are
/// present and the client's connection is open.
pub fn run_if_host(client_open: Option<bool>, server_present: bool) -> (r: bool)
    ensures
        r == (server_present && client_open == Some(true)),
{
    if !server_present {
        return false;
    }
    match client_open {
        Some(true) => true,
        _ => false,
    }
}

/// On a pure client a `ToFrom` directive is a configuration error: the
/// object's field is left untouched and its id is reported, but the tick
/// carries on for every other object.
pub proof fn lemma_client_tofrom_rejected<M>(objs: Seq<SyncObj<M>>, msgs: Seq<NetCompMsg<M>>, i: int)
    requires
        0 <= i < objs.len(),
        objs[i].comp.dir matches NetDirection::ToFrom(_, _),
    ensures
        client_apply_obj(objs[i], msgs) == objs[i],
        client_config_errors(objs).contains(objs[i].ent.id),
    decreases objs.len(),
{
    if i == objs.len() - 1 {
        assert(client_config_errors(objs).last() == objs[i].ent.id);
    } else {
        assert(objs.drop_last()[i] == objs[i]);
        lemma_client_tofrom_rejected(objs.drop_last(), msgs, i);
        let e = client_config_errors(objs.drop_last());
        assert(e.contains(objs[i].ent.id));
        let w = choose|w: int| 0 <= w < e.len() && e[w] == objs[i].ent.id;
        assert(client_config_errors(objs)[w] == objs[i].ent.id);
    }
}

} // verus!
