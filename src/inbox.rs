use vstd::prelude::*;
use vstd::string::StringExecFns;
use crate::budget::FetchBudget;
use crate::comment::{CreateOrUpdateComment, comment_accepted_with, comment_accepted, comment_op, comment_upserted};
use crate::deletion::{Delete, UndoDelete, delete_allowed_with, deletable_exists, delete_accepted, delete_applied, undo_delete_accepted};
use crate::error::FederationError;
use crate::iri::{normalize_iri, url_normalized, assert_activity_not_local, local_origin_result, url_domain};
use crate::node::{LedgerEntry, Node, first_entry, read_activity, is_activity_already_known, ledger_has};
use crate::remove_mod::{RemoveMod, remove_mod_target_accepted_with, remove_mod_accepted, remove_mod_effect};
use crate::resolve::{RemoteDirectory, dereference_person};
use crate::store::{has_community, has_person, first_person};
use crate::targets::comment_of_note;

verus! {

/// The closed set of activities the shared inbox accepts.
pub enum SharedInboxActivities {
    CreateOrUpdateComment(CreateOrUpdateComment),
    RemoveMod(RemoveMod),
    Delete(Delete),
    UndoDelete(UndoDelete),
}

/// How a delivery that did not fail ended.
#[derive(Debug, Clone, Copy, PartialEq, Eq, Structural)]
pub enum InboxOutcome {
    Processed,
    AlreadyProcessed,
}

impl SharedInboxActivities {
    pub open spec fn actor_spec(&self) -> String {
        match self {
            SharedInboxActivities::CreateOrUpdateComment(a) => a.actor,
            SharedInboxActivities::RemoveMod(a) => a.actor,
            SharedInboxActivities::Delete(a) => a.actor,
            SharedInboxActivities::UndoDelete(a) => a.actor,
        }
    }

    pub open spec fn id_spec(&self) -> String {
        match self {
            SharedInboxActivities::CreateOrUpdateComment(a) => a.id,
            SharedInboxActivities::RemoveMod(a) => a.id,
            SharedInboxActivities::Delete(a) => a.id,
            SharedInboxActivities::UndoDelete(a) => a.id,
        }
    }

    /// All that verification reads is held locally: no remote fetch is needed.
    pub open spec fn refs_local(&self, store: crate::store::LocalStore) -> bool {
        has_person(store.persons@, self.actor_spec()@) && match self {
            SharedInboxActivities::CreateOrUpdateComment(a) => a.cc@.len() > 0 && has_community(
                store.communities@,
                a.cc@[0]@,
            ),
            SharedInboxActivities::RemoveMod(a) => has_community(store.communities@, a.cc@),
            SharedInboxActivities::Delete(a) => has_community(store.communities@, a.cc@),
            SharedInboxActivities::UndoDelete(a) => has_community(store.communities@, a.cc@),
        }
    }

    /// Whether verification accepts the activity when `remaining` remote
    /// fetches are allowed.
    pub open spec fn accepted_with(
        &self,
        store: crate::store::LocalStore,
        remote: RemoteDirectory,
        remaining: int,
    ) -> bool {
        match self {
            SharedInboxActivities::CreateOrUpdateComment(a) => comment_accepted_with(store, remote, remaining, *a),
            SharedInboxActivities::RemoveMod(a) => match a.target {
                Some(_) => remove_mod_target_accepted_with(store, remote, remaining, *a),
                None => delete_allowed_with(store, remote, remaining, a.object@, a.actor@, a.cc@, true),
            },
            SharedInboxActivities::Delete(a) => delete_allowed_with(
                store,
                remote,
                remaining,
                a.object@,
                a.actor@,
                a.cc@,
                a.summary is Some,
            ),
            SharedInboxActivities::UndoDelete(a) => a.actor@ == a.object.actor@ && delete_allowed_with(
                store,
                remote,
                remaining,
                a.object.object@,
                a.actor@,
                a.cc@,
                a.object.summary is Some,
            ),
        }
    }

    /// Whether verification accepts the activity, all references held locally.
    pub open spec fn accepted(&self, store: crate::store::LocalStore) -> bool {
        match self {
            SharedInboxActivities::CreateOrUpdateComment(a) => comment_accepted(store, *a),
            SharedInboxActivities::RemoveMod(a) => remove_mod_accepted(store, *a),
            SharedInboxActivities::Delete(a) => delete_accepted(store, *a),
            SharedInboxActivities::UndoDelete(a) => undo_delete_accepted(store, *a),
        }
    }

    /// Whether receiving the activity finds what it applies to.
    /// A community that is not held is fetched, which a budget with `used`
    /// of `limit` spent must allow.
    pub open spec fn receivable(
        &self,
        store: crate::store::LocalStore,
        remote: RemoteDirectory,
        used: u32,
        limit: u32,
    ) -> bool {
        match self {
            SharedInboxActivities::CreateOrUpdateComment(_) => true,
            SharedInboxActivities::RemoveMod(a) => match a.target {
                Some(_) => has_community(store.communities@, a.cc@) || (used < limit && has_community(
                    remote.communities@,
                    a.cc@,
                )),
                None => deletable_exists(store, a.object@),
            },
            SharedInboxActivities::Delete(a) => deletable_exists(store, a.object@),
            SharedInboxActivities::UndoDelete(a) => deletable_exists(store, a.object.object@),
        }
    }

    /// What receiving the activity does to the node.
    pub open spec fn effect(&self, n1: Node, n2: Node, remote: RemoteDirectory, emission_id: String) -> bool {
        match self {
            SharedInboxActivities::CreateOrUpdateComment(a) => comment_upserted(n1, n2, comment_of_note(a.object))
                && n2.notifications@.len() == n1.notifications@.len() + 1 && n2.notifications@.last().op
                == comment_op(a.kind),
            SharedInboxActivities::RemoveMod(a) => remove_mod_effect(*a, n1, n2, remote, emission_id),
            SharedInboxActivities::Delete(a) => delete_applied(n1, n2, a.object@, a.actor, emission_id, true),
            SharedInboxActivities::UndoDelete(a) => delete_applied(n1, n2, a.object.object@, a.actor, emission_id, false),
        }
    }

    pub fn actor(&self) -> (r: &String)
        ensures
            *r == self.actor_spec(),
    {
        match self {
            SharedInboxActivities::CreateOrUpdateComment(a) => &a.actor,
            SharedInboxActivities::RemoveMod(a) => &a.actor,
            SharedInboxActivities::Delete(a) => &a.actor,
            SharedInboxActivities::UndoDelete(a) => &a.actor,
        }
    }

    pub fn id_unchecked(&self) -> (r: &String)
        ensures
            *r == self.id_spec(),
    {
        match self {
            SharedInboxActivities::CreateOrUpdateComment(a) => &a.id,
            SharedInboxActivities::RemoveMod(a) => &a.id,
            SharedInboxActivities::Delete(a) => &a.id,
            SharedInboxActivities::UndoDelete(a) => &a.id,
        }
    }

    pub fn verify(&self, store: &crate::store::LocalStore, remote: &RemoteDirectory, budget: &mut FetchBudget) -> (r:
        Result<(), FederationError>)
        requires
            old(budget).wf(),
        ensures
            final(budget).wf(),
            final(budget).limit == old(budget).limit,
            final(budget).used >= old(budget).used,
            r is Ok <==> self.accepted_with(*store, *remote, old(budget).remaining_spec()),
            self.refs_local(*store) ==> final(budget).used == old(budget).used && (r is Ok <==> self.accepted(
                *store,
            )),
    {
        match self {
            SharedInboxActivities::CreateOrUpdateComment(a) => a.verify(store, remote, budget),
            SharedInboxActivities::RemoveMod(a) => a.verify(store, remote, budget),
            SharedInboxActivities::Delete(a) => a.verify(store, remote, budget),
            SharedInboxActivities::UndoDelete(a) => a.verify(store, remote, budget),
        }
    }

    pub fn receive(&self, node: &mut Node, remote: &RemoteDirectory, budget: &mut FetchBudget, emission_id: &String) -> (r:
        Result<(), FederationError>)
        requires
            old(budget).wf(),
        ensures
            final(budget).wf(),
            final(budget).limit == old(budget).limit,
            final(budget).used >= old(budget).used,
            r is Ok <==> self.receivable(old(node).store, *remote, old(budget).used, old(budget).limit),
            r is Err ==> r == Err::<(), FederationError>(FederationError::NotFound) || r == Err::<(), FederationError>(
                FederationError::FetchLimitExceeded,
            ),
            r is Ok ==> self.effect(*old(node), *final(node), *remote, *emission_id),
            self.refs_local(old(node).store) ==> final(budget).used == old(budget).used,
            r is Err ==> *final(node) == *old(node),
            final(node).ledger == old(node).ledger,
            final(node).hostname == old(node).hostname,
            final(node).store.persons == old(node).store.persons,
    {
        match self {
            SharedInboxActivities::CreateOrUpdateComment(a) => a.receive(node),
            SharedInboxActivities::RemoveMod(a) => a.receive(node, remote, budget, emission_id),
            SharedInboxActivities::Delete(a) => a.receive(node, emission_id),
            SharedInboxActivities::UndoDelete(a) => a.receive(node, emission_id),
        }
    }
}

/// This node holds the actor `actor` and its public key.
pub open spec fn key_held(store: crate::store::LocalStore, actor: Seq<char>) -> bool {
    exists|i: int| #[trigger] first_person(store.persons@, actor, i) && store.persons@[i].public_key is Some
}

/// A delivery of `a` to `n` passes the local-origin guard and authentication
/// without a fetch: the identifier is not this node's, the signature verifies,
/// and the actor and its key are held.
pub open spec fn admitted(n: Node, a: SharedInboxActivities, signature_valid: bool) -> bool {
    &&& local_origin_result(url_domain(a.id_spec()@), n.hostname@) is Ok
    &&& signature_valid
    &&& key_held(n.store, a.actor_spec()@)
}

/// Resolves the actor (fetching and storing it when not held) and hands out
/// its public key, against which the caller checks the request's signature.
pub fn resolve_actor_key(
    node: &mut Node,
    remote: &RemoteDirectory,
    actor: &String,
    budget: &mut FetchBudget,
) -> (r: Result<String, FederationError>)
    requires
        old(budget).wf(),
    ensures
        final(budget).wf(),
        final(budget).limit == old(budget).limit,
        final(budget).used >= old(budget).used,
        final(node).hostname == old(node).hostname,
        final(node).ledger == old(node).ledger,
        final(node).notifications == old(node).notifications,
        final(node).outbox == old(node).outbox,
        final(node).store.communities == old(node).store.communities,
        final(node).store.posts == old(node).store.posts,
        final(node).store.comments == old(node).store.comments,
        r is Ok ==> exists|i: int|
            #[trigger] first_person(final(node).store.persons@, actor@, i) && final(node).store.persons@[i].public_key
                == Some(r->Ok_0),
        has_person(old(node).store.persons@, actor@) ==> *final(node) == *old(node) && final(budget).used == old(
            budget).used && (r is Ok <==> key_held(old(node).store, actor@)),
        !has_person(old(node).store.persons@, actor@) && old(budget).used >= old(budget).limit ==> r == Err::<
            String,
            FederationError,
        >(FederationError::FetchLimitExceeded),
        !has_person(old(node).store.persons@, actor@) && old(budget).used < old(budget).limit && !has_person(
            remote.persons@,
            actor@,
        ) ==> r == Err::<String, FederationError>(FederationError::ActorUnresolvable),
        (has_person(old(node).store.persons@, actor@) || (old(budget).used < old(budget).limit && has_person(
            remote.persons@,
            actor@,
        ))) && r is Err ==> r == Err::<String, FederationError>(FederationError::SignatureInvalid),
        !has_person(old(node).store.persons@, actor@) && old(budget).used < old(budget).limit && has_person(
            remote.persons@,
            actor@,
        ) ==> exists|j: int|
            #[trigger] first_person(remote.persons@, actor@, j) && final(node).store.persons@ == old(
                node,
            ).store.persons@.push(remote.persons@[j]) && (r is Ok <==> remote.persons@[j].public_key is Some),
{
    let i = match dereference_person(&mut node.store, remote, actor, budget) {
        Ok(i) => i,
        Err(e) => {
            if let FederationError::NotFound = e {
                return Err(FederationError::ActorUnresolvable);
            }
            return Err(e);
        },
    };
    proof {
        assert forall|k: int| #[trigger] first_person(node.store.persons@, actor@, k) implies k == i by {
            crate::store::lemma_first_person_unique(node.store.persons@, actor@, i as int, k);
        }
        if !has_person(old(node).store.persons@, actor@) {
            assert(node.store.persons@[i as int] == node.store.persons@.last());
        }
    }
    match &node.store.persons[i].public_key {
        Some(k) => Ok(k.clone()),
        None => Err(FederationError::SignatureInvalid),
    }
}

/// The actor resolves and is trusted: it is held (or fetched), publishes a key,
/// and the request's signature verifies against that key.
pub fn authenticate(
    node: &mut Node,
    remote: &RemoteDirectory,
    actor: &String,
    signature_valid: bool,
    budget: &mut FetchBudget,
) -> (r: Result<(), FederationError>)
    requires
        old(budget).wf(),
    ensures
        final(budget).wf(),
        final(budget).limit == old(budget).limit,
        final(budget).used >= old(budget).used,
        final(node).hostname == old(node).hostname,
        final(node).ledger == old(node).ledger,
        final(node).notifications == old(node).notifications,
        final(node).outbox == old(node).outbox,
        final(node).store.communities == old(node).store.communities,
        final(node).store.posts == old(node).store.posts,
        final(node).store.comments == old(node).store.comments,
        has_person(old(node).store.persons@, actor@) ==> *final(node) == *old(node) && final(budget).used == old(
            budget).used && (r is Ok <==> signature_valid && key_held(old(node).store, actor@)),
        !signature_valid ==> r is Err,
        r is Ok ==> key_held(final(node).store, actor@),
        r is Err && signature_valid ==> !key_held(final(node).store, actor@),
        !has_person(old(node).store.persons@, actor@) ==> (r is Ok <==> old(budget).used < old(budget).limit
            && has_person(remote.persons@, actor@) && signature_valid && key_held(final(node).store, actor@)),
        !has_person(old(node).store.persons@, actor@) && old(budget).used < old(budget).limit && has_person(
            remote.persons@,
            actor@,
        ) ==> final(budget).used == old(budget).used + 1 && exists|j: int|
            #[trigger] first_person(remote.persons@, actor@, j) && final(node).store.persons@ == old(
                node,
            ).store.persons@.push(remote.persons@[j]) && (r is Ok <==> signature_valid
                && remote.persons@[j].public_key is Some),
        !has_person(old(node).store.persons@, actor@) && old(budget).used >= old(budget).limit ==> r == Err::<
            (),
            FederationError,
        >(FederationError::FetchLimitExceeded),
        !has_person(old(node).store.persons@, actor@) && old(budget).used < old(budget).limit && !has_person(
            remote.persons@,
            actor@,
        ) ==> r == Err::<(), FederationError>(FederationError::ActorUnresolvable),
        (has_person(old(node).store.persons@, actor@) || (old(budget).used < old(budget).limit && has_person(
            remote.persons@,
            actor@,
        ))) && r is Err ==> r == Err::<(), FederationError>(FederationError::SignatureInvalid),
{
    let i = match dereference_person(&mut node.store, remote, actor, budget) {
        Ok(i) => i,
        Err(e) => {
            proof {
                assert forall|k: int| !#[trigger] first_person(node.store.persons@, actor@, k) by {
                    if first_person(node.store.persons@, actor@, k) {
                        assert(crate::store::person_at(old(node).store.persons@, actor@, k));
                    }
                }
            }
            if let FederationError::NotFound = e {
                return Err(FederationError::ActorUnresolvable);
            }
            return Err(e);
        },
    };
    proof {
        if has_person(old(node).store.persons@, actor@) {
            assert forall|k: int| #[trigger] first_person(old(node).store.persons@, actor@, k) implies k == i by {
                crate::store::lemma_first_person_unique(old(node).store.persons@, actor@, i as int, k);
            }
        }
    }
    proof {
        assert forall|k: int| #[trigger] first_person(node.store.persons@, actor@, k) implies k == i by {
            crate::store::lemma_first_person_unique(node.store.persons@, actor@, i as int, k);
        }
        if !has_person(old(node).store.persons@, actor@) {
            assert(i == old(node).store.persons@.len());
            assert(node.store.persons@[i as int] == node.store.persons@.last());
        }
    }
    if node.store.persons[i].public_key.is_none() || !signature_valid {
        return Err(FederationError::SignatureInvalid);
    }
    Ok(())
}

/// Drives one inbound activity through the pipeline: local-origin guard,
/// authentication, deduplication, verification, ledger record, receipt.
/// `raw` is the payload as received; `emission_id` names any activity this
/// node emits while applying it.
pub fn receive_activity(
    node: &mut Node,
    remote: &RemoteDirectory,
    activity: &SharedInboxActivities,
    raw: String,
    signature_valid: bool,
    budget: &mut FetchBudget,
    emission_id: &String,
) -> (r: Result<InboxOutcome, FederationError>)
    requires
        old(budget).wf(),
    ensures
        final(budget).wf(),
        final(budget).limit == old(budget).limit,
        local_origin_result(url_domain(activity.id_spec()@), old(node).hostname@) is Err ==> r
            == Err::<InboxOutcome, FederationError>(
            local_origin_result(url_domain(activity.id_spec()@), old(node).hostname@)->Err_0,
        ) && *final(node) == *old(node) && final(budget).used == old(budget).used,
        !signature_valid ==> r is Err,
        final(node).ledger == old(node).ledger || final(node).ledger@ == old(node).ledger@.push(
            LedgerEntry { ap_id: activity.id_spec(), data: raw, local: false, sensitive: true },
        ),
        final(node).hostname == old(node).hostname,
        r is Err ==> final(node).notifications == old(node).notifications
            && final(node).outbox == old(node).outbox && final(node).store.communities == old(
            node).store.communities && final(node).store.posts == old(node).store.posts
            && final(node).store.comments == old(node).store.comments,
        !signature_valid || r == Err::<InboxOutcome, FederationError>(FederationError::ActorUnresolvable) || r
            == Err::<InboxOutcome, FederationError>(FederationError::SignatureInvalid) || r == Err::<
            InboxOutcome,
            FederationError,
        >(FederationError::LocalOriginRejected) ==> final(node).ledger == old(node).ledger,
        r is Err && final(node).ledger != old(node).ledger ==> r == Err::<InboxOutcome, FederationError>(
            FederationError::NotFound,
        ) || r == Err::<InboxOutcome, FederationError>(FederationError::FetchLimitExceeded),
        r == Ok::<InboxOutcome, FederationError>(InboxOutcome::Processed) ==> final(node).ledger@ == old(
            node).ledger@.push(LedgerEntry { ap_id: activity.id_spec(), data: raw, local: false, sensitive: true }),
        ledger_has(old(node).ledger@, activity.id_spec()@) && local_origin_result(
            url_domain(activity.id_spec()@),
            old(node).hostname@,
        ) is Ok && signature_valid && key_held(final(node).store, activity.actor_spec()@) ==> r == Ok::<
            InboxOutcome,
            FederationError,
        >(InboxOutcome::AlreadyProcessed),
        r == Ok::<InboxOutcome, FederationError>(InboxOutcome::AlreadyProcessed) ==> final(node).outbox == old(
            node).outbox && final(node).ledger == old(node).ledger && final(node).notifications == old(node).notifications && final(node).store.communities
            == old(node).store.communities && final(node).store.posts == old(node).store.posts
            && final(node).store.comments == old(node).store.comments,
        r is Ok ==> ledger_has(final(node).ledger@, activity.id_spec()@),
        r is Ok ==> key_held(final(node).store, activity.actor_spec()@),
        admitted(*old(node), *activity, signature_valid) && ledger_has(old(node).ledger@, activity.id_spec()@) ==> r == Ok::<InboxOutcome, FederationError>(InboxOutcome::AlreadyProcessed),
        ledger_has(old(node).ledger@, activity.id_spec()@) ==> r is Err || r == Ok::<
            InboxOutcome,
            FederationError,
        >(InboxOutcome::AlreadyProcessed),
        has_person(old(node).store.persons@, activity.actor_spec()@) && ledger_has(
            old(node).ledger@,
            activity.id_spec()@,
        ) ==> *final(node) == *old(node) && final(budget).used == old(budget).used,
        activity.refs_local(old(node).store) ==> final(budget).used == old(budget).used,
        local_origin_result(url_domain(activity.id_spec()@), old(node).hostname@) is Ok && !has_person(
            old(node).store.persons@,
            activity.actor_spec()@,
        ) && old(budget).used >= old(budget).limit ==> r == Err::<InboxOutcome, FederationError>(
            FederationError::FetchLimitExceeded,
        ),
        local_origin_result(url_domain(activity.id_spec()@), old(node).hostname@) is Ok && !has_person(
            old(node).store.persons@,
            activity.actor_spec()@,
        ) && old(budget).used < old(budget).limit && !has_person(remote.persons@, activity.actor_spec()@) ==> r
            == Err::<InboxOutcome, FederationError>(FederationError::ActorUnresolvable),
        local_origin_result(url_domain(activity.id_spec()@), old(node).hostname@) is Ok && has_person(
            old(node).store.persons@,
            activity.actor_spec()@,
        ) && !(signature_valid && key_held(old(node).store, activity.actor_spec()@)) ==> r == Err::<
            InboxOutcome,
            FederationError,
        >(FederationError::SignatureInvalid),
        admitted(*old(node), *activity, signature_valid) && !ledger_has(old(node).ledger@, activity.id_spec()@) ==> (
        final(node).ledger@ == old(node).ledger@.push(
            LedgerEntry { ap_id: activity.id_spec(), data: raw, local: false, sensitive: true },
        ) <==> activity.accepted_with(old(node).store, *remote, old(budget).remaining_spec())) && (
        !activity.accepted_with(old(node).store, *remote, old(budget).remaining_spec()) ==> r is Err && final(
            node).ledger == old(node).ledger && final(node).store == old(node).store && final(node).notifications
            == old(node).notifications && final(node).outbox == old(node).outbox),
        activity.refs_local(old(node).store) && admitted(*old(node), *activity, signature_valid) && !ledger_has(
            old(node).ledger@,
            activity.id_spec()@,
        ) ==> (r == Ok::<InboxOutcome, FederationError>(InboxOutcome::Processed) <==> activity.accepted(
            old(node).store,
        ) && activity.receivable(old(node).store, *remote, old(budget).used, old(budget).limit)),
        r == Ok::<InboxOutcome, FederationError>(InboxOutcome::Processed) && activity.refs_local(old(node).store) ==> activity.accepted(old(node).store) && final(node).ledger@ == old(node).ledger@.push(
            LedgerEntry { ap_id: activity.id_spec(), data: raw, local: false, sensitive: true },
        ) && activity.effect(Node { ledger: final(node).ledger, ..*old(node) }, *final(node), *remote, *emission_id),
{
    proof {
        if key_held(node.store, activity.actor_spec()@) {
            let i = choose|i: int|
                #[trigger] first_person(node.store.persons@, activity.actor_spec()@, i)
                    && node.store.persons@[i].public_key is Some;
            assert(crate::store::person_at(node.store.persons@, activity.actor_spec()@, i));
        }
    }
    assert_activity_not_local(activity.id_unchecked(), &node.hostname)?;
    authenticate(node, remote, activity.actor(), signature_valid, budget)?;
    if is_activity_already_known(&node.ledger, activity.id_unchecked()) {
        return Ok(InboxOutcome::AlreadyProcessed);
    }
    activity.verify(&node.store, remote, budget)?;
    let id = activity.id_unchecked().clone();
    node.ledger.push(LedgerEntry { ap_id: id, data: raw, local: false, sensitive: true });
    assert(node.ledger@.last().ap_id@ == activity.id_spec()@);
    activity.receive(node, remote, budget, emission_id)?;
    Ok(InboxOutcome::Processed)
}

/// Path parameters of the activity read endpoint.
pub struct ActivityQuery {
    pub type_: String,
    pub id: String,
}

impl ActivityQuery {
    /// The IRI of the activity the query names on this node.
    pub fn activity_id(&self, protocol_and_hostname: &String) -> (r: String)
        ensures
            r@ == activity_iri(*self, *protocol_and_hostname),
    {
        let mut r = protocol_and_hostname.clone();
        r.append("/activities/");
        r.append(self.type_.as_str());
        r.append("/");
        r.append(self.id.as_str());
        r
    }
}

/// The IRI that a query names on the host `base`, as formed.
pub open spec fn activity_iri(info: ActivityQuery, base: String) -> Seq<char> {
    base@ + "/activities/"@ + info.type_@ + "/"@ + info.id@
}

/// The stored payload of the activity that `info` names, where the IRI it
/// forms parses and, in normal form, names an activity this node originated
/// and did not mark sensitive; otherwise `None` (not found).
pub fn get_activity(ledger: &Vec<LedgerEntry>, info: &ActivityQuery, protocol_and_hostname: &String) -> (r: Option<
    String,
>)
    ensures
        url_normalized(activity_iri(*info, *protocol_and_hostname)) is None ==> r is None,
        url_normalized(activity_iri(*info, *protocol_and_hostname)) is Some ==> (r is Some <==> exists|i: int|
            #[trigger] first_entry(ledger@, url_normalized(activity_iri(*info, *protocol_and_hostname))->Some_0, i)
                && ledger@[i].local && !ledger@[i].sensitive),
        url_normalized(activity_iri(*info, *protocol_and_hostname)) is Some && r is Some ==> exists|i: int|
            #[trigger] first_entry(ledger@, url_normalized(activity_iri(*info, *protocol_and_hostname))->Some_0, i)
                && r->Some_0 == ledger@[i].data,
{
    let activity_id = info.activity_id(protocol_and_hostname);
    let normalized = normalize_iri(&activity_id);
    match normalized {
        Some(id) => {
            assert(url_normalized(activity_iri(*info, *protocol_and_hostname))->Some_0 == id@);
            read_activity(ledger, &id)
        },
        None => None,
    }
}

} // verus!
