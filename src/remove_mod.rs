use vstd::prelude::*;
use crate::budget::FetchBudget;
use crate::checks::{moderators_url_of, verify_moderators_target, community_cost, community_resolvable, moderator_of, member_in, moderator_in, person_cost, person_resolvable, verify_mod_action, verify_person_in_community};
use crate::deletion::{member_fetch_refused, delete_outcome, member_ok, Delete, deletable_exists, delete_allowed, delete_applied, receive_delete_action, verify_delete_activity};
use crate::error::FederationError;
use crate::node::Node;
use crate::resolve::{RemoteDirectory, dereference_community, stored_copy};
use crate::store::{Community, LocalStore, first_community, has_community, has_person, has_str};

verus! {

/// A Remove activity. With a `target` (the community's moderator list) it
/// removes `object` from the moderators of the community in `cc`; without one
/// it is a moderator's removal of the object `object`.
pub struct RemoveMod {
    pub actor: String,
    pub to: Vec<String>,
    pub object: String,
    pub cc: String,
    pub target: Option<String>,
    pub id: String,
    pub context: Vec<String>,
    pub unparsed: Vec<(String, String)>,
}

/// `target` is the moderator list of the first local community `id`.
pub open spec fn moderators_target(store: LocalStore, id: Seq<char>, target: Seq<char>) -> bool {
    exists|i: int|
        #[trigger] first_community(store.communities@, id, i) && store.communities@[i].moderators_url@ == target
}

/// Whether a RemoveMod is accepted, all references held locally.
pub open spec fn remove_mod_accepted(store: LocalStore, rm: RemoveMod) -> bool {
    match rm.target {
        Some(t) => member_in(store.communities@, rm.cc@, rm.actor@) && moderator_in(
            store.communities@,
            rm.cc@,
            rm.actor@,
        ) && moderators_target(store, rm.cc@, t@),
        None => delete_allowed(store, rm.object@, rm.actor@, rm.cc@, true),
    }
}

/// Whether a RemoveMod with target is accepted when `remaining` remote
/// fetches are allowed: the community is resolved once per check.
pub open spec fn remove_mod_target_accepted_with(
    store: LocalStore,
    remote: RemoteDirectory,
    remaining: int,
    rm: RemoveMod,
) -> bool {
    match rm.target {
        Some(t) => {
            &&& member_ok(store, remote, remaining, rm.actor@, rm.cc@)
            &&& person_cost(store, rm.actor@) + 3 * community_cost(store, rm.cc@) <= remaining
            &&& moderator_of(store, remote, rm.cc@, rm.actor@)
            &&& moderators_url_of(store, remote, rm.cc@, t@)
        },
        None => false,
    }
}

/// The moderators `m2` are `m1` without `person`.
pub open spec fn mods_without(m2: Seq<String>, m1: Seq<String>, person: Seq<char>) -> bool {
    !has_str(m2, person) && (forall|s: Seq<char>| s != person ==> (has_str(m2, s) <==> has_str(m1, s)))
}

/// `c2` is `c1` with only its moderators changed.
pub open spec fn only_moderators_changed(c2: Community, c1: Community) -> bool {
    &&& c2.ap_id == c1.ap_id
    &&& c2.inbox == c1.inbox
    &&& c2.shared_inbox == c1.shared_inbox
    &&& c2.moderators_url == c1.moderators_url
    &&& c2.local == c1.local
    &&& c2.deleted == c1.deleted
    &&& c2.members@ == c1.members@
}

/// `n2` is `n1` with `person` no longer a moderator of the first community `id`.
/// A community not held is first fetched from `remote` and stored.
pub open spec fn moderator_removed(
    n1: Node,
    n2: Node,
    remote: RemoteDirectory,
    id: Seq<char>,
    person: Seq<char>,
) -> bool {
    let c1 = n1.store.communities@;
    let c2 = n2.store.communities@;
    &&& n2.hostname == n1.hostname
    &&& n2.ledger == n1.ledger
    &&& n2.notifications == n1.notifications
    &&& n2.outbox == n1.outbox
    &&& n2.store.persons == n1.store.persons
    &&& n2.store.posts == n1.store.posts
    &&& n2.store.comments == n1.store.comments
    &&& if has_community(c1, id) {
        exists|i: int|
            #[trigger] first_community(c1, id, i) && c2.len() == c1.len() && (forall|j: int|
                0 <= j < c1.len() && j != i ==> c2[j] == c1[j]) && c2[i] == (Community {
                moderators: c2[i].moderators,
                ..c1[i]
            }) && mods_without(c2[i].moderators@, c1[i].moderators@, person)
    } else {
        exists|k: int|
            #[trigger] first_community(remote.communities@, id, k) && c2.len() == c1.len() + 1 && c2.subrange(
                0,
                c1.len() as int,
            ) == c1 && only_moderators_changed(c2.last(), remote.communities@[k]) && mods_without(
                c2.last().moderators@,
                remote.communities@[k].moderators@,
                person,
            )
    }
}

/// The effect of receiving a RemoveMod.
pub open spec fn remove_mod_effect(
    rm: RemoveMod,
    n1: Node,
    n2: Node,
    remote: RemoteDirectory,
    emission_id: String,
) -> bool {
    match rm.target {
        Some(_) => moderator_removed(n1, n2, remote, rm.cc@, rm.object@),
        None => delete_applied(n1, n2, rm.object@, rm.actor, emission_id, true),
    }
}

/// The moderator's Delete that a RemoveMod without target stands for.
pub open spec fn as_mod_delete(rm: RemoveMod) -> Delete {
    Delete {
        actor: rm.actor,
        to: rm.to,
        object: rm.object,
        cc: rm.cc,
        summary: Some(rm.id),
        id: rm.id,
        context: rm.context,
        unparsed: rm.unparsed,
    }
}

/// A copy of `v` without the strings that read `s`.
fn without(v: &Vec<String>, s: &String) -> (r: Vec<String>)
    ensures
        !has_str(r@, s@),
        forall|t: Seq<char>| t != s@ ==> (has_str(r@, t) <==> has_str(v@, t)),
{
    let mut r: Vec<String> = Vec::new();
    let mut i: usize = 0;
    while i < v.len()
        invariant
            i <= v@.len(),
            !has_str(r@, s@),
            forall|t: Seq<char>| t != s@ ==> (has_str(r@, t) <==> has_str(v@.subrange(0, i as int), t)),
        decreases v@.len() - i,
    {
        let ghost o = r@;
        let ghost pre = v@.subrange(0, i as int);
        let ghost next = v@.subrange(0, i + 1);
        if !v[i].eq(s) {
            r.push(v[i].clone());
        }
        assert forall|t: Seq<char>| t != s@ implies (has_str(r@, t) <==> has_str(next, t)) by {
            assert(has_str(o, t) <==> has_str(pre, t));
            if has_str(r@, t) {
                let j = choose|j: int| 0 <= j < r@.len() && (#[trigger] r@[j])@ == t;
                if j < o.len() {
                    assert(o[j] == r@[j]);
                    assert(has_str(o, t));
                    let k = choose|k: int| 0 <= k < pre.len() && (#[trigger] pre[k])@ == t;
                    assert(next[k] == pre[k]);
                } else {
                    assert(next[i as int] == v@[i as int]);
                }
            }
            if has_str(next, t) {
                let k = choose|k: int| 0 <= k < next.len() && (#[trigger] next[k])@ == t;
                if k < i {
                    assert(pre[k] == next[k]);
                    assert(has_str(pre, t));
                    let j = choose|j: int| 0 <= j < o.len() && (#[trigger] o[j])@ == t;
                    assert(r@[j] == o[j]);
                } else {
                    assert(r@[o.len() as int] == v@[i as int]);
                }
            }
        }
        assert(!has_str(r@, s@)) by {
            if has_str(r@, s@) {
                let j = choose|j: int| 0 <= j < r@.len() && (#[trigger] r@[j])@ == s@;
                if j < o.len() {
                    assert(o[j] == r@[j]);
                }
            }
        }
        i = i + 1;
    }
    assert(v@.subrange(0, v@.len() as int) =~= v@);
    r
}

impl RemoveMod {
    pub fn verify(&self, store: &LocalStore, remote: &RemoteDirectory, budget: &mut FetchBudget) -> (r: Result<
        (),
        FederationError,
    >)
        requires
            old(budget).wf(),
        ensures
            final(budget).wf(),
            final(budget).limit == old(budget).limit,
            final(budget).used >= old(budget).used,
            self.target is None ==> delete_outcome(
                *store,
                *remote,
                old(budget).used,
                old(budget).limit,
                self.object@,
                self.actor@,
                self.cc@,
                true,
                r,
            ),
            self.target is Some ==> (r is Ok <==> remove_mod_target_accepted_with(
                *store,
                *remote,
                old(budget).remaining_spec(),
                *self,
            )),
            self.target is Some && member_ok(*store, *remote, old(budget).remaining_spec(), self.actor@, self.cc@)
                && person_cost(*store, self.actor@) + 3 * community_cost(*store, self.cc@) <= old(
                budget).remaining_spec() && moderator_of(*store, *remote, self.cc@, self.actor@) && !moderators_url_of(
                *store,
                *remote,
                self.cc@,
                self.target->Some_0@,
            ) ==> r == Err::<(), FederationError>(FederationError::MalformedPayload),
            self.target is Some && member_fetch_refused(
                *store,
                self.actor@,
                self.cc@,
                old(budget).used,
                old(budget).limit,
            ) ==> r == Err::<(), FederationError>(FederationError::FetchLimitExceeded),
            self.target is Some && member_ok(*store, *remote, old(budget).remaining_spec(), self.actor@, self.cc@)
                && person_cost(*store, self.actor@) + 2 * community_cost(*store, self.cc@) <= old(
                budget).remaining_spec() && !moderator_of(*store, *remote, self.cc@, self.actor@) ==> r == Err::<
                (),
                FederationError,
            >(FederationError::NotAuthorized),
            self.target is Some && !member_ok(*store, *remote, old(budget).remaining_spec(), self.actor@, self.cc@)
                && person_resolvable(*store, *remote, self.actor@) && community_resolvable(*store, *remote, self.cc@)
                && person_cost(*store, self.actor@) + community_cost(*store, self.cc@) <= old(budget).remaining_spec()
                ==> r == Err::<(), FederationError>(FederationError::NotAuthorized),
            has_person(store.persons@, self.actor@) && has_community(store.communities@, self.cc@) ==> final(
                budget).used == old(budget).used && (r is Ok <==> remove_mod_accepted(*store, *self)),
    {
        match &self.target {
            Some(target) => {
                verify_person_in_community(store, remote, &self.actor, &self.cc, budget)?;
                verify_mod_action(store, remote, &self.actor, &self.cc, budget)?;
                verify_moderators_target(store, remote, target, &self.cc, budget)
            },
            None => verify_delete_activity(&self.object, &self.actor, &self.cc, true, store, remote, budget),
        }
    }

    /// Applies the removal. With a target, the community is resolved (fetched
    /// and stored when not held) and `object` leaves its moderators.
    pub fn receive(&self, node: &mut Node, remote: &RemoteDirectory, budget: &mut FetchBudget, emission_id: &String) -> (r:
        Result<(), FederationError>)
        requires
            old(budget).wf(),
        ensures
            final(budget).wf(),
            final(budget).limit == old(budget).limit,
            final(budget).used >= old(budget).used,
            r is Ok ==> remove_mod_effect(*self, *old(node), *final(node), *remote, *emission_id),
            r is Err ==> *final(node) == *old(node),
            self.target is None ==> final(budget).used == old(budget).used && (r is Ok <==> deletable_exists(
                old(node).store,
                self.object@,
            )) && (r is Err ==> r == Err::<(), FederationError>(FederationError::NotFound)),
            self.target is Some ==> (r is Ok <==> has_community(old(node).store.communities@, self.cc@) || (old(
                budget).used < old(budget).limit && has_community(remote.communities@, self.cc@))),
            self.target is Some && !has_community(old(node).store.communities@, self.cc@) && old(budget).used >= old(
                budget).limit ==> r == Err::<(), FederationError>(FederationError::FetchLimitExceeded),
            self.target is Some && !has_community(old(node).store.communities@, self.cc@) && old(budget).used < old(
                budget).limit && !has_community(remote.communities@, self.cc@) ==> r == Err::<(), FederationError>(
                FederationError::NotFound,
            ),
            self.target is Some && has_community(old(node).store.communities@, self.cc@) ==> final(budget).used == old(
                budget).used,
    {
        if self.target.is_some() {
            let i = dereference_community(&mut node.store, remote, &self.cc, budget)?;
            let ghost mid = node.store.communities@;
            let mods = without(&node.store.communities[i].moderators, &self.object);
            node.store.communities[i].moderators = mods;
            proof {
                let c1 = old(node).store.communities@;
                let c2 = node.store.communities@;
                if has_community(c1, self.cc@) {
                    assert(first_community(c1, self.cc@, i as int));
                    assert(forall|j: int| 0 <= j < c1.len() && j != i ==> c2[j] == c1[j]);
                } else {
                    let k = choose|k: int|
                        #[trigger] first_community(remote.communities@, self.cc@, k) && stored_copy(
                            mid.last(),
                            remote.communities@[k],
                        );
                    assert(c2.subrange(0, c1.len() as int) =~= c1) by {
                        assert(mid.subrange(0, c1.len() as int) == c1);
                        assert forall|j: int| 0 <= j < c1.len() implies c2[j] == mid[j] by {}
                    }
                    assert(c2.last() == c2[i as int]);
                    assert(first_community(remote.communities@, self.cc@, k));
                }
            }
            Ok(())
        } else {
            receive_delete_action(node, &self.object, &self.actor, true, emission_id)
        }
    }
}

/// A Remove without target is accepted, and acts, exactly as the moderator's
/// Delete of the same object in the same community.
pub proof fn remove_without_target_is_mod_delete(
    rm: RemoveMod,
    store: LocalStore,
    remote: RemoteDirectory,
    used: u32,
    limit: u32,
    r: Result<(), FederationError>,
    n1: Node,
    n2: Node,
    emission_id: String,
)
    requires
        rm.target is None,
    ensures
        delete_outcome(store, remote, used, limit, rm.object@, rm.actor@, rm.cc@, true, r) == ({
            let d = as_mod_delete(rm);
            delete_outcome(store, remote, used, limit, d.object@, d.actor@, d.cc@, d.summary is Some, r)
        }),
        remove_mod_accepted(store, rm) == crate::deletion::delete_accepted(store, as_mod_delete(rm)),
        remove_mod_effect(rm, n1, n2, remote, emission_id) == crate::deletion::delete_effect(as_mod_delete(rm), n1, n2, emission_id),
{
}

} // verus!
