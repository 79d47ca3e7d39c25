use vstd::prelude::*;
use crate::budget::FetchBudget;
use crate::error::FederationError;
use crate::resolve::{Located, RemoteDirectory, locate_community, locate_person};
use crate::store::{Community, LocalStore, has_community, has_person, has_str, first_community, lemma_first_community_unique, contains_string};

verus! {

/// The first community with IRI `id` in `s` lists `actor` as a member.
pub open spec fn member_in(s: Seq<Community>, id: Seq<char>, actor: Seq<char>) -> bool {
    exists|i: int| #[trigger] first_community(s, id, i) && has_str(s[i].members@, actor)
}

/// The first community with IRI `id` in `s` lists `actor` as a moderator.
pub open spec fn moderator_in(s: Seq<Community>, id: Seq<char>, actor: Seq<char>) -> bool {
    exists|i: int| #[trigger] first_community(s, id, i) && has_str(s[i].moderators@, actor)
}

/// Membership as the resolver sees it: the local community, else the one a
/// peer publishes.
pub open spec fn member_of(store: LocalStore, remote: RemoteDirectory, id: Seq<char>, actor: Seq<char>) -> bool {
    if has_community(store.communities@, id) {
        member_in(store.communities@, id, actor)
    } else {
        member_in(remote.communities@, id, actor)
    }
}

pub open spec fn moderator_of(store: LocalStore, remote: RemoteDirectory, id: Seq<char>, actor: Seq<char>) -> bool {
    if has_community(store.communities@, id) {
        moderator_in(store.communities@, id, actor)
    } else {
        moderator_in(remote.communities@, id, actor)
    }
}

/// Remote fetches that resolving person `id` costs: none when held locally.
pub open spec fn person_cost(store: LocalStore, id: Seq<char>) -> int {
    if has_person(store.persons@, id) { 0 } else { 1 }
}

pub open spec fn community_cost(store: LocalStore, id: Seq<char>) -> int {
    if has_community(store.communities@, id) { 0 } else { 1 }
}

pub open spec fn person_resolvable(store: LocalStore, remote: RemoteDirectory, id: Seq<char>) -> bool {
    has_person(store.persons@, id) || has_person(remote.persons@, id)
}

pub open spec fn community_resolvable(store: LocalStore, remote: RemoteDirectory, id: Seq<char>) -> bool {
    has_community(store.communities@, id) || has_community(remote.communities@, id)
}

/// The community in the collection that `loc` names.
fn community_ref<'a>(store: &'a LocalStore, remote: &'a RemoteDirectory, loc: Located) -> (r: &'a Community)
    requires
        match loc {
            Located::Local(i) => i < store.communities@.len(),
            Located::Remote(i) => i < remote.communities@.len(),
        },
    ensures
        match loc {
            Located::Local(i) => *r == store.communities@[i as int],
            Located::Remote(i) => *r == remote.communities@[i as int],
        },
{
    match loc {
        Located::Local(i) => &store.communities[i],
        Located::Remote(i) => &remote.communities[i],
    }
}

/// Succeeds when the actor resolves and is a member of the community.
pub fn verify_person_in_community(
    store: &LocalStore,
    remote: &RemoteDirectory,
    actor: &String,
    community_id: &String,
    budget: &mut FetchBudget,
) -> (r: Result<(), FederationError>)
    requires
        old(budget).wf(),
    ensures
        final(budget).wf(),
        final(budget).limit == old(budget).limit,
        final(budget).used >= old(budget).used,
        r is Ok ==> member_of(*store, *remote, community_id@, actor@),
        r is Ok <==> person_resolvable(*store, *remote, actor@) && community_resolvable(*store, *remote, community_id@)
            && person_cost(*store, actor@) + community_cost(*store, community_id@) <= old(budget).remaining_spec()
            && member_of(*store, *remote, community_id@, actor@),
        r is Ok ==> final(budget).used == old(budget).used + person_cost(*store, actor@) + community_cost(
            *store,
            community_id@,
        ),
        person_resolvable(*store, *remote, actor@) && community_resolvable(*store, *remote, community_id@)
            && person_cost(*store, actor@) + community_cost(*store, community_id@) <= old(budget).remaining_spec()
            && !member_of(*store, *remote, community_id@, actor@) ==> r == Err::<(), FederationError>(
            FederationError::NotAuthorized,
        ),
        (!has_person(store.persons@, actor@) || !has_community(store.communities@, community_id@)) && old(
            budget).used >= old(budget).limit ==> r == Err::<(), FederationError>(
            FederationError::FetchLimitExceeded,
        ),
        has_person(store.persons@, actor@) && has_community(store.communities@, community_id@) ==> final(budget).used == old(budget).used && (r is Ok <==> member_in(store.communities@, community_id@, actor@))
            && (r is Err ==> r == Err::<(), FederationError>(FederationError::NotAuthorized)),
{
    locate_person(store, remote, actor, budget)?;
    let loc = locate_community(store, remote, community_id, budget)?;
    let c = community_ref(store, remote, loc);
    proof {
        match loc {
            Located::Local(i) => {
                assert forall|k: int| #[trigger] first_community(store.communities@, community_id@, k) implies k
                    == i by {
                    lemma_first_community_unique(store.communities@, community_id@, i as int, k);
                }
            },
            Located::Remote(i) => {
                assert forall|k: int| #[trigger] first_community(remote.communities@, community_id@, k) implies k
                    == i by {
                    lemma_first_community_unique(remote.communities@, community_id@, i as int, k);
                }
            },
        }
    }
    if contains_string(&c.members, actor) {
        Ok(())
    } else {
        Err(FederationError::NotAuthorized)
    }
}

/// Succeeds when the actor is a moderator of the community.
pub fn verify_mod_action(
    store: &LocalStore,
    remote: &RemoteDirectory,
    actor: &String,
    community_id: &String,
    budget: &mut FetchBudget,
) -> (r: Result<(), FederationError>)
    requires
        old(budget).wf(),
    ensures
        final(budget).wf(),
        final(budget).limit == old(budget).limit,
        final(budget).used >= old(budget).used,
        r is Ok ==> moderator_of(*store, *remote, community_id@, actor@),
        r is Ok <==> community_resolvable(*store, *remote, community_id@) && community_cost(*store, community_id@)
            <= old(budget).remaining_spec() && moderator_of(*store, *remote, community_id@, actor@),
        r is Ok ==> final(budget).used == old(budget).used + community_cost(*store, community_id@),
        community_resolvable(*store, *remote, community_id@) && community_cost(*store, community_id@) <= old(
            budget).remaining_spec() && !moderator_of(*store, *remote, community_id@, actor@) ==> r == Err::<
            (),
            FederationError,
        >(FederationError::NotAuthorized),
        !has_community(store.communities@, community_id@) && old(budget).used >= old(budget).limit ==> r == Err::<
            (),
            FederationError,
        >(FederationError::FetchLimitExceeded),
        has_community(store.communities@, community_id@) ==> final(budget).used == old(budget).used && (r is Ok
            <==> moderator_in(store.communities@, community_id@, actor@)) && (r is Err ==> r == Err::<
            (),
            FederationError,
        >(FederationError::NotAuthorized)),
{
    let loc = locate_community(store, remote, community_id, budget)?;
    let c = community_ref(store, remote, loc);
    proof {
        match loc {
            Located::Local(i) => {
                assert forall|k: int| #[trigger] first_community(store.communities@, community_id@, k) implies k
                    == i by {
                    lemma_first_community_unique(store.communities@, community_id@, i as int, k);
                }
            },
            Located::Remote(i) => {
                assert forall|k: int| #[trigger] first_community(remote.communities@, community_id@, k) implies k
                    == i by {
                    lemma_first_community_unique(remote.communities@, community_id@, i as int, k);
                }
            },
        }
    }
    if contains_string(&c.moderators, actor) {
        Ok(())
    } else {
        Err(FederationError::NotAuthorized)
    }
}

/// The first community `id` of `s` publishes `target` as its moderator list.
pub open spec fn moderators_url_in(s: Seq<Community>, id: Seq<char>, target: Seq<char>) -> bool {
    exists|i: int| #[trigger] first_community(s, id, i) && s[i].moderators_url@ == target
}

/// The moderator list of the community as the resolver sees it.
pub open spec fn moderators_url_of(store: LocalStore, remote: RemoteDirectory, id: Seq<char>, target: Seq<char>) -> bool {
    if has_community(store.communities@, id) {
        moderators_url_in(store.communities@, id, target)
    } else {
        moderators_url_in(remote.communities@, id, target)
    }
}

/// Succeeds when `target` is the moderator list of the community; an IRI
/// that names something else is malformed.
pub fn verify_moderators_target(
    store: &LocalStore,
    remote: &RemoteDirectory,
    target: &String,
    community_id: &String,
    budget: &mut FetchBudget,
) -> (r: Result<(), FederationError>)
    requires
        old(budget).wf(),
    ensures
        final(budget).wf(),
        final(budget).limit == old(budget).limit,
        final(budget).used >= old(budget).used,
        r is Ok <==> community_resolvable(*store, *remote, community_id@) && community_cost(*store, community_id@)
            <= old(budget).remaining_spec() && moderators_url_of(*store, *remote, community_id@, target@),
        r is Ok ==> final(budget).used == old(budget).used + community_cost(*store, community_id@),
        has_community(store.communities@, community_id@) ==> final(budget).used == old(budget).used,
        community_resolvable(*store, *remote, community_id@) && community_cost(*store, community_id@) <= old(
            budget).remaining_spec() && !moderators_url_of(*store, *remote, community_id@, target@) ==> r == Err::<
            (),
            FederationError,
        >(FederationError::MalformedPayload),
        !has_community(store.communities@, community_id@) && old(budget).used >= old(budget).limit ==> r == Err::<
            (),
            FederationError,
        >(FederationError::FetchLimitExceeded),
{
    let loc = locate_community(store, remote, community_id, budget)?;
    let c = community_ref(store, remote, loc);
    proof {
        match loc {
            Located::Local(i) => {
                assert forall|k: int| #[trigger] first_community(store.communities@, community_id@, k) implies k
                    == i by {
                    lemma_first_community_unique(store.communities@, community_id@, i as int, k);
                }
            },
            Located::Remote(i) => {
                assert forall|k: int| #[trigger] first_community(remote.communities@, community_id@, k) implies k
                    == i by {
                    lemma_first_community_unique(remote.communities@, community_id@, i as int, k);
                }
            },
        }
    }
    if c.moderators_url.eq(target) {
        Ok(())
    } else {
        Err(FederationError::MalformedPayload)
    }
}

} // verus!
