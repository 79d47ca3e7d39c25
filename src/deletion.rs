use vstd::prelude::*;
use crate::budget::FetchBudget;
use crate::checks::{community_cost, community_resolvable, member_in, member_of, moderator_in, moderator_of, person_cost, person_resolvable, verify_mod_action, verify_person_in_community};
use crate::error::FederationError;
use crate::iri::{same_domain, verify_domains_match};
use crate::node::{ActivityKind, Delivery, Node, Notification, UserOperationCrud};
use crate::outbound::{collect_inboxes, distinct, endpoint_of_listed};
use crate::resolve::RemoteDirectory;
use crate::store::{has_str, Community, Post, Comment, LocalStore, find_comment, find_community, find_post, first_community, has_comment, has_community, has_person, has_post, post_at, comment_at};
use crate::targets::DeletableObjects;

verus! {

/// A Delete activity; with a `summary` it is a moderator's removal.
pub struct Delete {
    pub actor: String,
    pub to: Vec<String>,
    pub object: String,
    pub cc: String,
    pub summary: Option<String>,
    pub id: String,
    pub context: Vec<String>,
    pub unparsed: Vec<(String, String)>,
}

/// Reverts a Delete.
pub struct UndoDelete {
    pub actor: String,
    pub to: Vec<String>,
    pub object: Delete,
    pub cc: String,
    pub id: String,
    pub context: Vec<String>,
    pub unparsed: Vec<(String, String)>,
}

/// Whether the delete pathway authorizes `actor` to (un)delete `object` in
/// `community_id`, all of them held locally.
pub open spec fn delete_allowed(
    store: LocalStore,
    object: Seq<char>,
    actor: Seq<char>,
    community_id: Seq<char>,
    is_mod_action: bool,
) -> bool {
    let cs = store.communities@;
    if has_community(cs, object) {
        exists|i: int|
            #[trigger] first_community(cs, object, i) && (cs[i].local ==> member_in(cs, community_id, actor))
                && moderator_in(cs, object, actor)
    } else if has_post(store.posts@, object) || has_comment(store.comments@, object) {
        member_in(cs, community_id, actor) && if is_mod_action {
            moderator_in(cs, community_id, actor)
        } else {
            same_domain(actor, object)
        }
    } else {
        false
    }
}

/// The membership check of `actor` in `community_id` passes when `remaining`
/// remote fetches are allowed.
pub open spec fn member_ok(
    store: LocalStore,
    remote: RemoteDirectory,
    remaining: int,
    actor: Seq<char>,
    community_id: Seq<char>,
) -> bool {
    &&& person_resolvable(store, remote, actor)
    &&& community_resolvable(store, remote, community_id)
    &&& person_cost(store, actor) + community_cost(store, community_id) <= remaining
    &&& member_of(store, remote, community_id, actor)
}

/// Both references of a membership check resolve within the budget, and the
/// actor is no member.
pub open spec fn non_member(
    store: LocalStore,
    remote: RemoteDirectory,
    remaining: int,
    actor: Seq<char>,
    community_id: Seq<char>,
) -> bool {
    &&& person_resolvable(store, remote, actor)
    &&& community_resolvable(store, remote, community_id)
    &&& person_cost(store, actor) + community_cost(store, community_id) <= remaining
    &&& !member_of(store, remote, community_id, actor)
}

/// A membership check needs a fetch that a spent budget refuses.
pub open spec fn member_fetch_refused(store: LocalStore, actor: Seq<char>, community_id: Seq<char>, used: u32, limit: u32) -> bool {
    (!has_person(store.persons@, actor) || !has_community(store.communities@, community_id)) && used >= limit
}

/// Whether the delete pathway authorizes the action when `remaining` remote
/// fetches are allowed. Resolutions are not persisted, so a community that is
/// fetched twice costs twice.
pub open spec fn delete_allowed_with(
    store: LocalStore,
    remote: RemoteDirectory,
    remaining: int,
    object: Seq<char>,
    actor: Seq<char>,
    community_id: Seq<char>,
    is_mod_action: bool,
) -> bool {
    let cs = store.communities@;
    let member = member_ok(store, remote, remaining, actor, community_id);
    if has_community(cs, object) {
        exists|i: int|
            #[trigger] first_community(cs, object, i) && (cs[i].local ==> member) && moderator_in(cs, object, actor)
    } else if has_post(store.posts@, object) || has_comment(store.comments@, object) {
        member && if is_mod_action {
            person_cost(store, actor) + 2 * community_cost(store, community_id) <= remaining && moderator_of(
                store,
                remote,
                community_id,
                actor,
            )
        } else {
            same_domain(actor, object)
        }
    } else {
        false
    }
}

/// Checks a post or comment (un)deletion: membership, then moderator status for
/// a moderator's action, else a domain match of actor and object.
fn verify_delete_activity_post_or_comment(
    actor: &String,
    object_id: &String,
    community_id: &String,
    is_mod_action: bool,
    store: &LocalStore,
    remote: &RemoteDirectory,
    budget: &mut FetchBudget,
) -> (r: Result<(), FederationError>)
    requires
        old(budget).wf(),
    ensures
        final(budget).wf(),
        final(budget).limit == old(budget).limit,
        final(budget).used >= old(budget).used,
        r is Ok <==> person_resolvable(*store, *remote, actor@) && community_resolvable(*store, *remote, community_id@)
            && person_cost(*store, actor@) + community_cost(*store, community_id@) <= old(budget).remaining_spec()
            && member_of(*store, *remote, community_id@, actor@) && if is_mod_action {
            person_cost(*store, actor@) + 2 * community_cost(*store, community_id@) <= old(budget).remaining_spec()
                && moderator_of(*store, *remote, community_id@, actor@)
        } else {
            same_domain(actor@, object_id@)
        },
        member_ok(*store, *remote, old(budget).remaining_spec(), actor@, community_id@) && !is_mod_action && !same_domain(actor@, object_id@) ==> r == Err::<(), FederationError>(FederationError::DomainMismatch),
        non_member(*store, *remote, old(budget).remaining_spec(), actor@, community_id@) ==> r == Err::<
            (),
            FederationError,
        >(FederationError::NotAuthorized),
        member_ok(*store, *remote, old(budget).remaining_spec(), actor@, community_id@) && is_mod_action
            && person_cost(*store, actor@) + 2 * community_cost(*store, community_id@) <= old(budget).remaining_spec()
            && !moderator_of(*store, *remote, community_id@, actor@) ==> r == Err::<(), FederationError>(
            FederationError::NotAuthorized,
        ),
        member_fetch_refused(*store, actor@, community_id@, old(budget).used, old(budget).limit) ==> r == Err::<
            (),
            FederationError,
        >(FederationError::FetchLimitExceeded),
        has_person(store.persons@, actor@) && has_community(store.communities@, community_id@) ==> final(
            budget).used == old(budget).used && (r is Ok <==> member_in(store.communities@, community_id@, actor@)
            && if is_mod_action {
            moderator_in(store.communities@, community_id@, actor@)
        } else {
            same_domain(actor@, object_id@)
        }) && (member_in(store.communities@, community_id@, actor@) && !is_mod_action && !same_domain(actor@, object_id@) ==> r == Err::<(), FederationError>(FederationError::DomainMismatch)),
{
    verify_person_in_community(store, remote, actor, community_id, budget)?;
    if is_mod_action {
        verify_mod_action(store, remote, actor, community_id, budget)?;
    } else {
        verify_domains_match(actor, object_id)?;
    }
    Ok(())
}

/// What the delete pathway's verification returns, as far as it is fixed:
/// `r` against the store, the peers, the budget (`used` of `limit`), the
/// object, the actor, the community and whether it is a moderator's action.
pub open spec fn delete_outcome(
    store: LocalStore,
    remote: RemoteDirectory,
    used: u32,
    limit: u32,
    object: Seq<char>,
    actor: Seq<char>,
    community_id: Seq<char>,
    is_mod_action: bool,
    r: Result<(), FederationError>,
) -> bool {
    let pc_target = !has_community(store.communities@, object) && (has_post(store.posts@, object) || has_comment(
        store.comments@,
        object,
    ));
    let rem = limit - used;
    let member = member_ok(store, remote, rem, actor, community_id);
    let cs = store.communities@;
    &&& (!has_community(cs, object) && !has_post(store.posts@, object) && !has_comment(store.comments@, object)
        ==> r == Err::<(), FederationError>(FederationError::NotFound))
    &&& (pc_target && member && !is_mod_action && !same_domain(actor, object) ==> r == Err::<
        (),
        FederationError,
    >(FederationError::DomainMismatch))
    &&& (pc_target && member && is_mod_action && person_cost(store, actor) + 2 * community_cost(store, community_id)
        <= rem && !moderator_of(store, remote, community_id, actor) ==> r == Err::<(), FederationError>(
        FederationError::NotAuthorized,
    ))
    &&& (pc_target && non_member(store, remote, rem, actor, community_id) ==> r == Err::<(), FederationError>(
        FederationError::NotAuthorized,
    ))
    &&& (has_community(cs, object) && (exists|i: int| #[trigger] first_community(cs, object, i) && cs[i].local)
        && non_member(store, remote, rem, actor, community_id) ==> r == Err::<(), FederationError>(
        FederationError::NotAuthorized,
    ))
    &&& (pc_target && member_fetch_refused(store, actor, community_id, used, limit) ==> r == Err::<
        (),
        FederationError,
    >(FederationError::FetchLimitExceeded))
    &&& (has_community(cs, object) && (exists|i: int|
        #[trigger] first_community(cs, object, i) && (cs[i].local ==> member)) && !moderator_in(cs, object, actor)
        ==> r == Err::<(), FederationError>(FederationError::NotAuthorized))
    &&& (has_community(cs, object) && (exists|i: int| #[trigger] first_community(cs, object, i) && cs[i].local)
        && member_fetch_refused(store, actor, community_id, used, limit) ==> r == Err::<(), FederationError>(
        FederationError::FetchLimitExceeded,
    ))
    &&& (r is Ok <==> delete_allowed_with(store, remote, rem, object, actor, community_id, is_mod_action))
}

/// Checks a Delete or UndoDelete (or a removal) of `object` by `actor`.
pub fn verify_delete_activity(
    object: &String,
    actor: &String,
    community_id: &String,
    is_mod_action: bool,
    store: &LocalStore,
    remote: &RemoteDirectory,
    budget: &mut FetchBudget,
) -> (r: Result<(), FederationError>)
    requires
        old(budget).wf(),
    ensures
        final(budget).wf(),
        final(budget).limit == old(budget).limit,
        final(budget).used >= old(budget).used,
        delete_outcome(
            *store,
            *remote,
            old(budget).used,
            old(budget).limit,
            object@,
            actor@,
            community_id@,
            is_mod_action,
            r,
        ),
        has_person(store.persons@, actor@) && has_community(store.communities@, community_id@) ==> final(
            budget).used == old(budget).used && (r is Ok <==> delete_allowed(
            *store,
            object@,
            actor@,
            community_id@,
            is_mod_action,
        )),
        has_person(store.persons@, actor@) && has_community(store.communities@, community_id@) && !has_community(
            store.communities@,
            object@,
        ) && (has_post(store.posts@, object@) || has_comment(store.comments@, object@)) && member_in(
            store.communities@,
            community_id@,
            actor@,
        ) && !is_mod_action && !same_domain(actor@, object@) ==> r == Err::<(), FederationError>(
            FederationError::DomainMismatch,
        ),
{
    let target = DeletableObjects::read_from_db(object, store)?;
    match target {
        DeletableObjects::Community(c) => {
            if c.local {
                verify_person_in_community(store, remote, actor, community_id, budget)?;
            }
            verify_mod_action(store, remote, actor, &c.ap_id, budget)?;
        },
        DeletableObjects::Post(p) => {
            verify_delete_activity_post_or_comment(
                actor,
                &p.ap_id,
                community_id,
                is_mod_action,
                store,
                remote,
                budget,
            )?;
        },
        DeletableObjects::Comment(c) => {
            verify_delete_activity_post_or_comment(
                actor,
                &c.ap_id,
                community_id,
                is_mod_action,
                store,
                remote,
                budget,
            )?;
        },
    }
    Ok(())
}

/// Some community, post or comment of the store has IRI `object`.
pub open spec fn deletable_exists(store: LocalStore, object: Seq<char>) -> bool {
    has_community(store.communities@, object) || has_post(store.posts@, object) || has_comment(
        store.comments@,
        object,
    )
}

/// `n2`'s notifications are `n1`'s and one more, of kind `op` about `object`.
pub open spec fn notified(n1: Node, n2: Node, op: UserOperationCrud, object: Seq<char>) -> bool {
    &&& n2.notifications@.len() == n1.notifications@.len() + 1
    &&& n2.notifications@.subrange(0, n1.notifications@.len() as int) == n1.notifications@
    &&& n2.notifications@.last().op == op
    &&& n2.notifications@.last().object@ == object
}

pub open spec fn delete_op(kind_community: bool, kind_post: bool, deleted: bool) -> UserOperationCrud {
    if kind_community {
        if deleted { UserOperationCrud::DeleteCommunity } else { UserOperationCrud::EditCommunity }
    } else if kind_post {
        if deleted { UserOperationCrud::DeletePost } else { UserOperationCrud::EditPost }
    } else {
        if deleted { UserOperationCrud::DeleteComment } else { UserOperationCrud::EditComment }
    }
}

/// `d` is the Delete (or UndoDelete) by `actor` with identifier `emission_id`
/// that a community of this node emits of itself, sent to its members'
/// endpoints.
pub open spec fn tombstone(
    d: Delivery,
    store: LocalStore,
    c: Community,
    actor: String,
    emission_id: String,
    deleted: bool,
) -> bool {
    &&& d.activity_id == emission_id
    &&& d.actor == actor
    &&& d.kind == if deleted { ActivityKind::Delete } else { ActivityKind::UndoDelete }
    &&& d.object@ == c.ap_id@
    &&& d.wraps is None
    &&& distinct(d.inboxes@)
    &&& forall|s: Seq<char>| has_str(d.inboxes@, s) <==> endpoint_of_listed(store.persons@, c.members@, s)
}

/// The delete pathway's effect: the soft-delete flag of the resolved object set
/// to `deleted`, one scoped notification, and for a community of this node one
/// outbound emission of its own tombstone.
pub open spec fn delete_applied(
    n1: Node,
    n2: Node,
    object: Seq<char>,
    actor: String,
    emission_id: String,
    deleted: bool,
) -> bool {
    let s1 = n1.store;
    let s2 = n2.store;
    &&& n2.hostname == n1.hostname
    &&& n2.ledger == n1.ledger
    &&& s2.persons == s1.persons
    &&& if has_community(s1.communities@, object) {
        exists|i: int|
            #[trigger] first_community(s1.communities@, object, i) && s2.communities@ == s1.communities@.update(
                i,
                Community { deleted: deleted, ..s1.communities@[i] },
            ) && s2.posts == s1.posts && s2.comments == s1.comments && notified(
                n1,
                n2,
                delete_op(true, false, deleted),
                object,
            ) && if s1.communities@[i].local {
                n2.outbox@.len() == n1.outbox@.len() + 1 && n2.outbox@.subrange(0, n1.outbox@.len() as int)
                    == n1.outbox@ && tombstone(n2.outbox@.last(), s1, s1.communities@[i], actor, emission_id, deleted)
            } else {
                n2.outbox == n1.outbox
            }
    } else if has_post(s1.posts@, object) {
        exists|i: int|
            #[trigger] post_at(s1.posts@, object, i) && s2.posts@ == s1.posts@.update(
                i,
                Post { deleted: deleted, ..s1.posts@[i] },
            ) && s2.communities == s1.communities && s2.comments == s1.comments && n2.outbox == n1.outbox
                && notified(n1, n2, delete_op(false, true, deleted), object)
    } else {
        exists|i: int|
            #[trigger] comment_at(s1.comments@, object, i) && s2.comments@ == s1.comments@.update(
                i,
                Comment { deleted: deleted, ..s1.comments@[i] },
            ) && s2.communities == s1.communities && s2.posts == s1.posts && n2.outbox == n1.outbox
                && notified(n1, n2, delete_op(false, false, deleted), object)
    }
}

fn push_notification(node: &mut Node, op: UserOperationCrud, object: &String)
    ensures
        notified(*old(node), *final(node), op, object@),
        final(node).hostname == old(node).hostname,
        final(node).ledger == old(node).ledger,
        final(node).store == old(node).store,
        final(node).outbox == old(node).outbox,
{
    node.notifications.push(Notification { op, object: object.clone(), recipients: Vec::new() });
    assert(node.notifications@.subrange(0, old(node).notifications@.len() as int) =~= old(
        node,
    ).notifications@);
}

/// Applies a Delete (`deleted`) or UndoDelete (`!deleted`) of `object`.
/// `emission_id` identifies the tombstone that a community of this node emits.
pub fn receive_delete_action(node: &mut Node, object: &String, actor: &String, deleted: bool, emission_id: &String) -> (r:
    Result<(), FederationError>)
    ensures
        r is Ok <==> deletable_exists(old(node).store, object@),
        r is Ok ==> delete_applied(*old(node), *final(node), object@, *actor, *emission_id, deleted),
        r is Err ==> r == Err::<(), FederationError>(FederationError::NotFound) && *final(node) == *old(node),
{
    if let Some(i) = find_community(&node.store.communities, object) {
        if node.store.communities[i].local {
            let inboxes = collect_inboxes(&node.store.persons, &node.store.communities[i].members);
            let ghost o = node.outbox@;
            let kind = if deleted { ActivityKind::Delete } else { ActivityKind::UndoDelete };
            node.outbox.push(
                Delivery {
                    activity_id: emission_id.clone(),
                    actor: actor.clone(),
                    kind,
                    object: object.clone(),
                    wraps: None,
                    inboxes,
                },
            );
            assert(node.outbox@.subrange(0, o.len() as int) =~= o);
        }
        node.store.communities[i].deleted = deleted;
        let op = if deleted { UserOperationCrud::DeleteCommunity } else { UserOperationCrud::EditCommunity };
        push_notification(node, op, object);
        return Ok(());
    }
    if let Some(i) = find_post(&node.store.posts, object) {
        node.store.posts[i].deleted = deleted;
        let op = if deleted { UserOperationCrud::DeletePost } else { UserOperationCrud::EditPost };
        push_notification(node, op, object);
        return Ok(());
    }
    if let Some(i) = find_comment(&node.store.comments, object) {
        node.store.comments[i].deleted = deleted;
        let op = if deleted { UserOperationCrud::DeleteComment } else { UserOperationCrud::EditComment };
        push_notification(node, op, object);
        return Ok(());
    }
    Err(FederationError::NotFound)
}


/// Whether a Delete is accepted, all references held locally.
pub open spec fn delete_accepted(store: LocalStore, d: Delete) -> bool {
    delete_allowed(store, d.object@, d.actor@, d.cc@, d.summary is Some)
}

/// The effect of receiving a Delete.
pub open spec fn delete_effect(d: Delete, n1: Node, n2: Node, emission_id: String) -> bool {
    delete_applied(n1, n2, d.object@, d.actor, emission_id, true)
}

impl Delete {
    pub fn verify(&self, store: &LocalStore, remote: &RemoteDirectory, budget: &mut FetchBudget) -> (r: Result<
        (),
        FederationError,
    >)
        requires
            old(budget).wf(),
        ensures
            final(budget).wf(),
            final(budget).limit == old(budget).limit,
            final(budget).used >= old(budget).used,
            delete_outcome(
                *store,
                *remote,
                old(budget).used,
                old(budget).limit,
                self.object@,
                self.actor@,
                self.cc@,
                self.summary is Some,
                r,
            ),
            has_person(store.persons@, self.actor@) && has_community(store.communities@, self.cc@) ==> final(
                budget).used == old(budget).used && (r is Ok <==> delete_accepted(*store, *self)),
    {
        verify_delete_activity(&self.object, &self.actor, &self.cc, self.summary.is_some(), store, remote, budget)
    }

    pub fn receive(&self, node: &mut Node, emission_id: &String) -> (r: Result<(), FederationError>)
        ensures
            r is Ok <==> deletable_exists(old(node).store, self.object@),
            r is Ok ==> delete_effect(*self, *old(node), *final(node), *emission_id),
            r is Err ==> r == Err::<(), FederationError>(FederationError::NotFound) && *final(node) == *old(node),
    {
        receive_delete_action(node, &self.object, &self.actor, true, emission_id)
    }
}

/// Whether an UndoDelete is accepted, all references held locally.
pub open spec fn undo_delete_accepted(store: LocalStore, u: UndoDelete) -> bool {
    u.actor@ == u.object.actor@ && delete_allowed(store, u.object.object@, u.actor@, u.cc@, u.object.summary is Some)
}

impl UndoDelete {
    pub fn verify(&self, store: &LocalStore, remote: &RemoteDirectory, budget: &mut FetchBudget) -> (r: Result<
        (),
        FederationError,
    >)
        requires
            old(budget).wf(),
        ensures
            final(budget).wf(),
            final(budget).limit == old(budget).limit,
            final(budget).used >= old(budget).used,
            self.actor@ == self.object.actor@ ==> delete_outcome(
                *store,
                *remote,
                old(budget).used,
                old(budget).limit,
                self.object.object@,
                self.actor@,
                self.cc@,
                self.object.summary is Some,
                r,
            ),
            self.actor@ != self.object.actor@ ==> r == Err::<(), FederationError>(FederationError::NotAuthorized),
            r is Ok <==> self.actor@ == self.object.actor@ && delete_allowed_with(
                *store,
                *remote,
                old(budget).remaining_spec(),
                self.object.object@,
                self.actor@,
                self.cc@,
                self.object.summary is Some,
            ),
            has_person(store.persons@, self.actor@) && has_community(store.communities@, self.cc@) ==> final(
                budget).used == old(budget).used && (r is Ok <==> undo_delete_accepted(*store, *self)),
    {
        if !self.actor.eq(&self.object.actor) {
            return Err(FederationError::NotAuthorized);
        }
        verify_delete_activity(
            &self.object.object,
            &self.actor,
            &self.cc,
            self.object.summary.is_some(),
            store,
            remote,
            budget,
        )
    }

    pub fn receive(&self, node: &mut Node, emission_id: &String) -> (r: Result<(), FederationError>)
        ensures
            r is Ok <==> deletable_exists(old(node).store, self.object.object@),
            r is Ok ==> delete_applied(*old(node), *final(node), self.object.object@, self.actor, *emission_id, false),
            r is Err ==> r == Err::<(), FederationError>(FederationError::NotFound) && *final(node) == *old(node),
    {
        receive_delete_action(node, &self.object.object, &self.actor, false, emission_id)
    }
}

} // verus!
