//! What holds of the service as a whole, proved from the definitions that
//! the contracts of its functions are stated in.

use vstd::prelude::*;
use crate::codegen::PREFIX_CHARS;
use crate::codegen::referral_code_text;
use crate::codegen::SUFFIX_CHARS;
use crate::handler::announced;
use crate::handler::credited_rows;
use crate::handler::deleted;
use crate::handler::id_not_found_text;
use crate::handler::listed;
use crate::handler::options_or_default;
use crate::handler::registered;
use crate::handler::registered_row;
use crate::handler::shown;
use crate::hub::DeliveryView;
use crate::hub::HubView;
use crate::model::UserView;
use crate::registration::conflict_text;
use crate::registration::created_text;
use crate::registration::RegistrationView;
use crate::registration::ReplyView;
use crate::registration::StepView;
use crate::response::ApiErrorView;
use crate::response::ResponseView;
use crate::schema::CreateUserView;
use crate::schema::FilterOptions;
use crate::schema::PageWindow;
use crate::table::at_most;
use crate::table::collides;
use crate::table::collides_at;
use crate::table::credit_row;
use crate::table::credited;
use crate::table::delete_row;
use crate::table::deleted_count;
use crate::table::has_id_at;
use crate::table::has_ref_code_at;
use crate::table::index_of_id;
use crate::table::index_of_ref_code;
use crate::table::insert_row;
use crate::table::lemma_credit_row;
use crate::table::lemma_delete_row;
use crate::table::lemma_index_of_id;
use crate::table::lemma_index_of_ref_code;
use crate::table::lemma_insert_row;
use crate::table::lemma_rank_bounds;
use crate::table::rank;
use crate::table::row_of_id;
use crate::table::row_of_ref_code;
use crate::table::table_wf;
use crate::trusted::uuid_text;

verus! {

/// A row of a table is still the row of its identity after another row was
/// inserted.
proof fn lemma_insert_keeps(rows: Seq<UserView>, row: UserView, at: int)
    requires
        table_wf(rows),
        !collides(rows, row),
        0 <= at < rows.len(),
    ensures
        insert_row(rows, row) matches Some(after) && row_of_id(after, rows[at].id) == Some(rows[at])
            && row_of_id(after, row.id) == Some(row),
{
    lemma_insert_row(rows, row);
    lemma_rank_bounds(rows, row.id);
    let place = rank(rows, row.id);
    let after = rows.insert(place, row);
    let moved = if at < place { at } else { at + 1 };
    assert(after[moved] == rows[at]);
    lemma_index_of_id(after, rows[at].id, moved);
    assert(after[place] == row);
    lemma_index_of_id(after, row.id, place);
}

/// A credit changes the row of the user it names, and no other row.
proof fn lemma_credit_keeps(rows: Seq<UserView>, referrer: int, at: int)
    requires
        table_wf(rows),
        0 <= referrer < rows.len(),
        0 <= at < rows.len(),
        rows[referrer].added_by_ref_code < u32::MAX,
    ensures
        credit_row(rows, rows[referrer].id) matches Some(after) && table_wf(after) && after.len()
            == rows.len() && after[at] == if at == referrer {
            credited(rows[at])
        } else {
            rows[at]
        },
{
    assert(has_id_at(rows, rows[referrer].id, referrer));
    lemma_index_of_id(rows, rows[referrer].id, referrer);
    lemma_credit_row(rows, rows[referrer].id);
}

/// A registration that succeeds and cites the referral code of a user adds
/// exactly one to that user's signup counter and changes nothing else of
/// any user that the table held: every other row, and every other value of
/// the referrer's row, is as it was.
///
/// The counter must have room to grow: a credit that the store cannot commit
/// is passed over, and the registration succeeds without it.
pub proof fn law_referrer_credited_once(
    rows: Seq<UserView>,
    body: CreateUserView,
    id: u128,
    token: u128,
    now: i64,
    referrer: int,
)
    requires
        table_wf(rows),
        0 <= referrer < rows.len(),
        body.ref_code == Some(rows[referrer].ref_code),
        rows[referrer].added_by_ref_code < u32::MAX,
        registered(rows, body, id, token, now).end.response.status == 201,
    ensures
        ({
            let after = registered(rows, body, id, token, now).rows;
            &&& table_wf(after)
            &&& after.len() == rows.len() + 1
            &&& row_of_id(after, rows[referrer].id) == Some(credited(rows[referrer]))
            &&& credited(rows[referrer]).added_by_ref_code == rows[referrer].added_by_ref_code + 1
            &&& forall|at: int|
                0 <= at < rows.len() && at != referrer ==> row_of_id(after, (#[trigger] rows[at]).id)
                    == Some(rows[at])
        }),
{
    let ref_code = rows[referrer].ref_code;
    assert(has_ref_code_at(rows, ref_code, referrer));
    lemma_index_of_ref_code(rows, ref_code, referrer);
    lemma_credit_keeps(rows, referrer, referrer);
    let credited_table = credit_row(rows, rows[referrer].id)->0;
    assert(credited_rows(rows, body.ref_code) == credited_table);
    let own_code = referral_code_text(body.user_name, token)->0;
    let row = registered_row(body, own_code, id, now);
    lemma_insert_row(credited_table, row);
    lemma_insert_keeps(credited_table, row, referrer);
    let after = registered(rows, body, id, token, now).rows;
    assert forall|at: int| 0 <= at < rows.len() && at != referrer implies row_of_id(
        after,
        (#[trigger] rows[at]).id,
    ) == Some(rows[at]) by {
        lemma_credit_keeps(rows, referrer, at);
        lemma_insert_keeps(credited_table, row, at);
    }
}

/// The user that a registration created is the user that a request for its
/// identity shows: the table holds the row that the client was handed, and
/// the lookup answers 200 with that row.
pub proof fn law_registered_user_is_shown(
    rows: Seq<UserView>,
    body: CreateUserView,
    id: u128,
    token: u128,
    now: i64,
)
    requires
        table_wf(rows),
        registered(rows, body, id, token, now).end.response.status == 201,
    ensures
        ({
            let after = registered(rows, body, id, token, now);
            &&& table_wf(after.rows)
            &&& after.end.event matches Some(user) && user.id == id && row_of_id(after.rows, id)
                == Some(user) && after.end.response == ResponseView::user(
                201,
                Some(created_text()),
                user,
            ) && shown(row_of_id(after.rows, id), id_not_found_text(id)) == ResponseView::user(
                200,
                None,
                user,
            )
        }),
{
    let before = credited_rows(rows, body.ref_code);
    assert(table_wf(before)) by {
        if let Some(ref_code) = body.ref_code {
            if let Some(referrer) = row_of_ref_code(rows, ref_code) {
                lemma_credit_row(rows, referrer.id);
            }
        }
    }
    let own_code = referral_code_text(body.user_name, token)->0;
    let row = registered_row(body, own_code, id, now);
    lemma_insert_row(before, row);
    lemma_rank_bounds(before, id);
    let after = registered(rows, body, id, token, now).rows;
    let place = rank(before, id);
    assert(after[place] == row);
    lemma_index_of_id(after, id, place);
}

/// A registration that cites a referral code which no user owns is answered
/// with 404, writes nothing to the table and publishes nothing.
pub proof fn law_unknown_referrer_changes_nothing(
    rows: Seq<UserView>,
    hub: HubView,
    body: CreateUserView,
    id: u128,
    token: u128,
    now: i64,
)
    requires
        body.ref_code matches Some(ref_code) && forall|at: int|
            0 <= at < rows.len() ==> (#[trigger] rows[at]).ref_code != ref_code,
    ensures
        registered(rows, body, id, token, now).rows == rows,
        registered(rows, body, id, token, now).end.response.status == 404,
        registered(rows, body, id, token, now).end.event is None,
        announced(hub, registered(rows, body, id, token, now).end.event) == hub,
{
    let ref_code = body.ref_code->0;
    assert forall|at: int| !has_ref_code_at(rows, ref_code, at) by {}
}

/// After a registration succeeded, a second one with the same email address
/// is answered with 409 and publishes nothing, and the row of the first is
/// as the first registration left it. Where the second cites no referral
/// code, the whole table is as the first left it.
///
/// This speaks of a second request that reaches the insertion: its name has
/// the three characters that a referral code needs, and the referral code
/// that it cites, if it cites one, is owned by a user other than the first.
pub proof fn law_same_email_conflicts(
    rows: Seq<UserView>,
    first: CreateUserView,
    first_id: u128,
    first_token: u128,
    first_now: i64,
    second: CreateUserView,
    second_id: u128,
    second_token: u128,
    second_now: i64,
)
    requires
        table_wf(rows),
        registered(rows, first, first_id, first_token, first_now).end.response.status == 201,
        second.email == first.email,
        second.user_name.len() >= PREFIX_CHARS,
        second.ref_code matches Some(ref_code) ==> row_of_ref_code(
            registered(rows, first, first_id, first_token, first_now).rows,
            ref_code,
        ) matches Some(referrer) && referrer.id != first_id,
    ensures
        ({
            let between = registered(rows, first, first_id, first_token, first_now).rows;
            let again = registered(between, second, second_id, second_token, second_now);
            &&& again.end.response == ApiErrorView::Conflict(conflict_text()).response()
            &&& again.end.response.status == 409
            &&& again.end.event is None
            &&& row_of_id(between, first_id) is Some
            &&& row_of_id(again.rows, first_id) == row_of_id(between, first_id)
            &&& second.ref_code is None ==> again.rows == between
        }),
{
    let before = credited_rows(rows, first.ref_code);
    assert(table_wf(before)) by {
        if let Some(ref_code) = first.ref_code {
            if let Some(referrer) = row_of_ref_code(rows, ref_code) {
                lemma_credit_row(rows, referrer.id);
            }
        }
    }
    let first_code = referral_code_text(first.user_name, first_token)->0;
    let first_row = registered_row(first, first_code, first_id, first_now);
    lemma_insert_row(before, first_row);
    lemma_rank_bounds(before, first_id);
    let between = registered(rows, first, first_id, first_token, first_now).rows;
    let place = rank(before, first_id);
    assert(between == before.insert(place, first_row));
    assert(between[place] == first_row);
    lemma_index_of_id(between, first_id, place);

    let credited_table = credited_rows(between, second.ref_code);
    assert(table_wf(credited_table) && credited_table.len() == between.len()
        && credited_table[place] == first_row) by {
        if let Some(ref_code) = second.ref_code {
            let referrer = row_of_ref_code(between, ref_code)->0;
            let at = index_of_ref_code(between, ref_code)->0;
            assert(has_ref_code_at(between, ref_code, at));
            if between[at].added_by_ref_code < u32::MAX {
                lemma_credit_keeps(between, at, place);
            } else {
                assert(has_id_at(between, referrer.id, at));
                lemma_index_of_id(between, referrer.id, at);
            }
        }
    }
    lemma_index_of_id(credited_table, first_id, place);
    let second_code = referral_code_text(second.user_name, second_token)->0;
    let second_row = registered_row(second, second_code, second_id, second_now);
    assert(collides_at(credited_table, second_row, place));
}

/// The deletion of a user that the table does not hold is answered with 404
/// and changes nothing. The deletion of a user that it holds is answered
/// with 204 and removes that user's row and no other: every other row is
/// still the row of its identity. Either way the table holds no such user
/// afterwards, so that a second deletion is answered with 404 and changes
/// nothing.
pub proof fn law_delete_removes_one(rows: Seq<UserView>, id: u128)
    requires
        table_wf(rows),
    ensures
        row_of_id(rows, id) is None ==> {
            &&& deleted(id, deleted_count(rows, id)).status == 404
            &&& delete_row(rows, id) == rows
        },
        row_of_id(rows, id) is Some ==> {
            &&& deleted(id, deleted_count(rows, id)).status == 204
            &&& delete_row(rows, id).len() == rows.len() - 1
            &&& forall|at: int|
                0 <= at < rows.len() && (#[trigger] rows[at]).id != id ==> row_of_id(
                    delete_row(rows, id),
                    rows[at].id,
                ) == Some(rows[at])
        },
        table_wf(delete_row(rows, id)),
        row_of_id(delete_row(rows, id), id) is None,
        deleted(id, deleted_count(delete_row(rows, id), id)).status == 404,
        delete_row(delete_row(rows, id), id) == delete_row(rows, id),
{
    lemma_delete_row(rows, id);
    let after = delete_row(rows, id);
    if let Some(gone) = index_of_id(rows, id) {
        assert(has_id_at(rows, id, gone));
        assert forall|at: int| 0 <= at < rows.len() && (#[trigger] rows[at]).id != id implies row_of_id(
            after,
            rows[at].id,
        ) == Some(rows[at]) by {
            let moved = if at < gone { at } else { at - 1 };
            assert(after[moved] == rows[at]);
            lemma_index_of_id(after, rows[at].id, moved);
        }
    }
}

/// The hub after the events of a sequence were published one after the
/// other.
pub open spec fn publish_all(hub: HubView, events: Seq<UserView>) -> HubView
    decreases events.len(),
{
    if events.len() == 0 {
        hub
    } else {
        publish_all(hub, events.drop_last()).publish(events.last())
    }
}

/// What a subscription receives when it asks `count` times, and the hub
/// after that.
pub open spec fn receive_many(hub: HubView, id: u64, count: nat) -> (HubView, Seq<DeliveryView>)
    decreases count,
{
    if count == 0 {
        (hub, Seq::empty())
    } else {
        let (before, seen) = receive_many(hub, id, (count - 1) as nat);
        let (after, delivery) = before.receive(id);
        (after, seen.push(delivery))
    }
}

/// The deliveries that hand over the events of a sequence, one by one.
pub open spec fn as_deliveries(events: Seq<UserView>) -> Seq<DeliveryView> {
    events.map_values(|user: UserView| DeliveryView::Event(user))
}

/// Events that are published while a subscription is open join its queue in
/// the order of their publication, and none is dropped, as long as the queue
/// has room for them.
pub proof fn law_published_events_queue_in_order(hub: HubView, id: u64, events: Seq<UserView>)
    requires
        hub.is_open(id),
        hub.subs[id].pending.len() + events.len() <= hub.capacity,
    ensures
        publish_all(hub, events).capacity == hub.capacity,
        publish_all(hub, events).next_id == hub.next_id,
        publish_all(hub, events).is_open(id),
        publish_all(hub, events).subs[id].pending == hub.subs[id].pending + events,
        publish_all(hub, events).subs[id].missed == hub.subs[id].missed,
    decreases events.len(),
{
    if events.len() == 0 {
        assert(hub.subs[id].pending + events =~= hub.subs[id].pending);
    } else {
        let earlier = events.drop_last();
        law_published_events_queue_in_order(hub, id, earlier);
        assert((hub.subs[id].pending + earlier).push(events.last()) =~= hub.subs[id].pending
            + events);
    }
}

/// A subscription that did not fall behind receives the events of its queue
/// one by one, oldest first, and then the word that nothing awaits it.
pub proof fn law_queue_is_received_in_order(hub: HubView, id: u64, count: nat)
    requires
        hub.is_open(id),
        hub.subs[id].missed == 0,
        count <= hub.subs[id].pending.len(),
    ensures
        receive_many(hub, id, count).1 == as_deliveries(hub.subs[id].pending.take(count as int)),
        receive_many(hub, id, count).0.is_open(id),
        receive_many(hub, id, count).0.subs[id].missed == 0,
        receive_many(hub, id, count).0.subs[id].pending == hub.subs[id].pending.skip(count as int),
        count == hub.subs[id].pending.len() ==> receive_many(hub, id, count).0.receive(id).1
            == DeliveryView::Empty,
    decreases count,
{
    let pending = hub.subs[id].pending;
    if count == 0 {
        assert(as_deliveries(pending.take(0)) =~= Seq::<DeliveryView>::empty());
        assert(pending.skip(0) =~= pending);
    } else {
        let fewer = (count - 1) as nat;
        law_queue_is_received_in_order(hub, id, fewer);
        let (before, seen) = receive_many(hub, id, fewer);
        assert(before.subs[id].pending[0] == pending[fewer as int]);
        assert(before.subs[id].pending.drop_first() =~= pending.skip(count as int));
        assert(seen.push(DeliveryView::Event(pending[fewer as int])) =~= as_deliveries(
            pending.take(count as int),
        ));
    }
}

/// Every event that is published while a subscription is open, and while
/// its queue has room, is received by that subscription, in the order of
/// publication: a subscription with an empty queue that did not fall behind
/// receives exactly the events that were published since, one by one.
pub proof fn law_open_subscription_observes_all(hub: HubView, id: u64, events: Seq<UserView>)
    requires
        hub.is_open(id),
        hub.subs[id].pending.len() == 0,
        hub.subs[id].missed == 0,
        events.len() <= hub.capacity,
    ensures
        receive_many(publish_all(hub, events), id, events.len()).1 == as_deliveries(events),
{
    law_published_events_queue_in_order(hub, id, events);
    let after = publish_all(hub, events);
    assert(after.subs[id].pending =~= events);
    law_queue_is_received_in_order(after, id, events.len());
    assert(events.take(events.len() as int) =~= events);
}

/// A subscription that is closed when events are published stays closed and
/// receives none of them.
pub proof fn law_closed_subscription_observes_nothing(hub: HubView, id: u64, events: Seq<UserView>)
    requires
        !hub.is_open(id),
    ensures
        !publish_all(hub, events).is_open(id),
        publish_all(hub, events).next_id == hub.next_id,
        publish_all(hub, events).receive(id) == (publish_all(hub, events), DeliveryView::Closed),
    decreases events.len(),
{
    if events.len() > 0 {
        law_closed_subscription_observes_nothing(hub, id, events.drop_last());
    }
}

/// Closing a subscription closes it for good: it is closed at once, and the
/// hub never hands its handle to a later subscription.
pub proof fn law_unsubscribed_is_closed(hub: HubView, id: u64)
    requires
        hub.wf(),
        hub.is_open(id),
    ensures
        !hub.unsubscribe(id).is_open(id),
        hub.unsubscribe(id).wf(),
        hub.unsubscribe(id).can_subscribe() ==> !hub.unsubscribe(id).subscribe().is_open(id),
{
}

/// How many events a queue of the given capacity drops when `count` events
/// are to stand in it.
pub open spec fn overflow(count: nat, capacity: nat) -> nat {
    if count <= capacity {
        0
    } else {
        (count - capacity) as nat
    }
}

/// A count of missed events, which stops at the largest value it can hold.
pub open spec fn saturated(count: int) -> u64 {
    if count <= u64::MAX {
        count as u64
    } else {
        u64::MAX
    }
}

/// However many events are published, a subscription keeps the newest of
/// them up to its capacity, in the order of their publication, and counts
/// each older one that it dropped as missed. So a subscription that falls
/// behind stays open, never holds more than its capacity, and goes on with
/// the oldest event that it kept.
pub proof fn law_lagging_subscription_keeps_newest(hub: HubView, id: u64, events: Seq<UserView>)
    requires
        hub.is_open(id),
        hub.subs[id].pending.len() <= hub.capacity,
    ensures
        publish_all(hub, events).capacity == hub.capacity,
        publish_all(hub, events).is_open(id),
        ({
            let all = hub.subs[id].pending + events;
            let dropped = overflow(all.len(), hub.capacity);
            let after = publish_all(hub, events).subs[id];
            &&& after.pending == all.skip(dropped as int)
            &&& after.pending.len() <= hub.capacity
            &&& after.missed == saturated(hub.subs[id].missed + dropped)
        }),
    decreases events.len(),
{
    let before = hub.subs[id].pending;
    if events.len() == 0 {
        assert(before + events =~= before);
        assert(before.skip(0) =~= before);
    } else {
        let earlier = events.drop_last();
        law_lagging_subscription_keeps_newest(hub, id, earlier);
        let all_earlier = before + earlier;
        let all = before + events;
        assert(all =~= all_earlier.push(events.last()));
        let dropped_earlier = overflow(all_earlier.len(), hub.capacity);
        let dropped = overflow(all.len(), hub.capacity);
        let kept = all_earlier.skip(dropped_earlier as int);
        let offered = kept.push(events.last());
        if offered.len() <= hub.capacity {
            assert(dropped == dropped_earlier);
            assert(offered =~= all.skip(dropped as int));
        } else {
            assert(dropped == dropped_earlier + 1);
            assert(offered.drop_first() =~= all.skip(dropped as int));
        }
    }
}

/// What can be done to a hub.
pub enum HubOp {
    Publish(UserView),
    Subscribe,
    Unsubscribe(u64),
    Receive(u64),
}

/// The hub after one operation. A subscription is opened only where the hub
/// has a handle left.
pub open spec fn apply(hub: HubView, op: HubOp) -> HubView {
    match op {
        HubOp::Publish(user) => hub.publish(user),
        HubOp::Subscribe => if hub.can_subscribe() {
            hub.subscribe()
        } else {
            hub
        },
        HubOp::Unsubscribe(id) => hub.unsubscribe(id),
        HubOp::Receive(id) => hub.receive(id).0,
    }
}

/// The hub after a sequence of operations.
pub open spec fn apply_all(hub: HubView, ops: Seq<HubOp>) -> HubView
    decreases ops.len(),
{
    if ops.len() == 0 {
        hub
    } else {
        apply(apply_all(hub, ops.drop_last()), ops.last())
    }
}

/// Whatever is done to a hub, it stays in order: no queue outgrows the
/// capacity, and a subscription that was closed is never open again, so it
/// observes nothing that is published after it was closed.
pub proof fn law_closed_stays_closed(hub: HubView, ops: Seq<HubOp>, id: u64)
    requires
        hub.wf(),
        id < hub.next_id,
        !hub.is_open(id),
    ensures
        apply_all(hub, ops).wf(),
        apply_all(hub, ops).capacity == hub.capacity,
        apply_all(hub, ops).next_id >= hub.next_id,
        !apply_all(hub, ops).is_open(id),
        apply_all(hub, ops).receive(id).1 == DeliveryView::Closed,
    decreases ops.len(),
{
    if ops.len() > 0 {
        law_closed_stays_closed(hub, ops.drop_last(), id);
        let before = apply_all(hub, ops.drop_last());
        let after = apply(before, ops.last());
        assert forall|other: u64| #[trigger] after.subs.contains_key(other) implies other
            < after.next_id && after.subs[other].pending.len() <= after.capacity by {
            match ops.last() {
                HubOp::Publish(_) => {
                    assert(before.subs.contains_key(other));
                },
                HubOp::Subscribe => {
                    if other != before.next_id {
                        assert(before.subs.contains_key(other));
                    }
                },
                HubOp::Unsubscribe(_) => {
                    assert(before.subs.contains_key(other));
                },
                HubOp::Receive(_) => {
                    assert(before.subs.contains_key(other));
                },
            }
        }
    }
}

/// A listing without a page is the listing of page 1, a listing without a
/// limit has 10 rows to the page, and a listing without options is the
/// listing of page 1 with 10 rows to the page.
pub proof fn law_listing_defaults(page: Option<usize>, limit: Option<usize>)
    ensures
        (FilterOptions { page: None, limit }).window_of() == (FilterOptions {
            page: Some(1),
            limit,
        }).window_of(),
        (FilterOptions { page, limit: None }).window_of() == (FilterOptions {
            page,
            limit: Some(10),
        }).window_of(),
        options_or_default(None).window_of() == Some(PageWindow { limit: 10, offset: 0 }),
{
    let plain = options_or_default(None);
    assert(plain.page_or_default() == 1 && plain.limit_or_default() == 10);
    assert(plain.offset() == 0);
    assert(plain.in_range());
}

/// A page shows the rows that follow the rows of all pages before it, in
/// the order of the table, up to its limit and as far as the table reaches.
pub proof fn law_page_follows_pages_before(rows: Seq<UserView>, page: usize, limit: usize)
    requires
        (FilterOptions { page: Some(page), limit: Some(limit) }).in_range(),
    ensures
        listed(rows, Some(FilterOptions { page: Some(page), limit: Some(limit) })) == Some(
            rows.subrange(
                at_most((page - 1) * limit, rows.len() as int),
                at_most(page * limit, rows.len() as int),
            ),
        ),
{
    assert((page - 1) * limit + limit == page * limit) by (nonlinear_arith);
}

/// A referral code has seven characters: the first three characters of the
/// name it was made for, then four characters that are hexadecimal digits
/// of the UUID.
pub proof fn law_referral_code_shape(user_name: Seq<char>, token: u128)
    requires
        user_name.len() >= PREFIX_CHARS,
    ensures
        referral_code_text(user_name, token) matches Some(code) && code.len() == PREFIX_CHARS
            + SUFFIX_CHARS && code.take(PREFIX_CHARS as int) == user_name.take(
            PREFIX_CHARS as int,
        ) && code.skip(PREFIX_CHARS as int) == uuid_text(token).take(SUFFIX_CHARS as int),
{
    let code = referral_code_text(user_name, token)->0;
    assert(code.take(PREFIX_CHARS as int) =~= user_name.take(PREFIX_CHARS as int));
    assert(code.skip(PREFIX_CHARS as int) =~= uuid_text(token).take(SUFFIX_CHARS as int));
}

/// A reply to the statement that a registration waits for brings it nearer
/// to its end; any other reply leaves it where it stands. So a registration
/// ends after three statements at most.
pub proof fn law_registration_progress(state: RegistrationView, reply: ReplyView)
    ensures
        state.steps_left() <= 3,
        state.expects(reply) ==> state.advance(reply).steps_left() < state.steps_left(),
        !state.expects(reply) ==> state.advance(reply) == StepView::Ask(state),
{
}

} // verus!
