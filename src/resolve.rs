use vstd::prelude::*;
use crate::budget::FetchBudget;
use crate::error::FederationError;

use crate::store::{community_at, first_person, Community, LocalStore, Person, has_community, has_person, person_at, first_community, find_community, find_person};

verus! {

/// The objects that peers publish, as fetched for this request. A lookup here
/// stands for one remote fetch and is charged to the request's budget.
pub struct RemoteDirectory {
    pub persons: Vec<Person>,
    pub communities: Vec<Community>,
}

/// Where a resolved reference was found.
#[derive(Debug, Clone, Copy, PartialEq, Eq, Structural)]
pub enum Located {
    Local(usize),
    Remote(usize),
}

/// Resolves a person reference: local lookup first; on a miss, one charged
/// remote fetch. Nothing is persisted.
pub fn locate_person(
    store: &LocalStore,
    remote: &RemoteDirectory,
    id: &String,
    budget: &mut FetchBudget,
) -> (r: Result<Located, FederationError>)
    requires
        old(budget).wf(),
    ensures
        final(budget).wf(),
        final(budget).limit == old(budget).limit,
        has_person(store.persons@, id@) ==> final(budget).used == old(budget).used && (
        match r {
            Ok(Located::Local(i)) => first_person(store.persons@, id@, i as int),
            _ => false,
        }),
        !has_person(store.persons@, id@) && old(budget).used >= old(budget).limit ==> r
            == Err::<Located, FederationError>(FederationError::FetchLimitExceeded) && final(budget).used
            == old(budget).used,
        !has_person(store.persons@, id@) && old(budget).used < old(budget).limit ==> final(budget).used == old(budget).used + 1 && (has_person(remote.persons@, id@) ==> match r {
            Ok(Located::Remote(i)) => first_person(remote.persons@, id@, i as int),
            _ => false,
        }) && (!has_person(remote.persons@, id@) ==> r == Err::<Located, FederationError>(
            FederationError::NotFound,
        )),
{
    match find_person(&store.persons, id) {
        Some(i) => Ok(Located::Local(i)),
        None => {
            budget.try_charge()?;
            match find_person(&remote.persons, id) {
                Some(i) => Ok(Located::Remote(i)),
                None => Err(FederationError::NotFound),
            }
        },
    }
}

/// Resolves a community reference in the same way as `locate_person`.
pub fn locate_community(
    store: &LocalStore,
    remote: &RemoteDirectory,
    id: &String,
    budget: &mut FetchBudget,
) -> (r: Result<Located, FederationError>)
    requires
        old(budget).wf(),
    ensures
        final(budget).wf(),
        final(budget).limit == old(budget).limit,
        has_community(store.communities@, id@) ==> final(budget).used == old(budget).used && (
        match r {
            Ok(Located::Local(i)) => first_community(store.communities@, id@, i as int),
            _ => false,
        }),
        !has_community(store.communities@, id@) && old(budget).used >= old(budget).limit ==> r
            == Err::<Located, FederationError>(FederationError::FetchLimitExceeded) && final(budget).used
            == old(budget).used,
        !has_community(store.communities@, id@) && old(budget).used < old(budget).limit ==> final(budget).used == old(budget).used + 1 && (has_community(remote.communities@, id@) ==> match r {
            Ok(Located::Remote(i)) => first_community(remote.communities@, id@, i as int),
            _ => false,
        }) && (!has_community(remote.communities@, id@) ==> r == Err::<Located, FederationError>(
            FederationError::NotFound,
        )),
{
    match find_community(&store.communities, id) {
        Some(i) => Ok(Located::Local(i)),
        None => {
            budget.try_charge()?;
            match find_community(&remote.communities, id) {
                Some(i) => Ok(Located::Remote(i)),
                None => Err(FederationError::NotFound),
            }
        },
    }
}

/// Resolves a person and persists it when it had to be fetched. Returns its
/// index in the store afterwards.
pub fn dereference_person(
    store: &mut LocalStore,
    remote: &RemoteDirectory,
    id: &String,
    budget: &mut FetchBudget,
) -> (r: Result<usize, FederationError>)
    requires
        old(budget).wf(),
    ensures
        final(budget).wf(),
        final(budget).limit == old(budget).limit,
        final(budget).used >= old(budget).used,
        r is Ok ==> first_person(final(store).persons@, id@, r->Ok_0 as int),
        final(store).communities == old(store).communities,
        final(store).posts == old(store).posts,
        final(store).comments == old(store).comments,
        has_person(old(store).persons@, id@) ==> r is Ok && first_person(old(store).persons@, id@, r->Ok_0 as int)
            && *final(store) == *old(store)
            && final(budget).used == old(budget).used,
        !has_person(old(store).persons@, id@) ==> (r is Ok <==> old(budget).used < old(budget).limit
            && has_person(remote.persons@, id@)),
        !has_person(old(store).persons@, id@) && r is Ok ==> final(budget).used == old(budget).used + 1
            && r->Ok_0 == old(store).persons@.len(),
        !has_person(old(store).persons@, id@) && r is Ok ==> exists|j: int|
            #[trigger] first_person(remote.persons@, id@, j) && final(store).persons@ == old(store).persons@.push(
                remote.persons@[j],
            ),
        !has_person(old(store).persons@, id@) && old(budget).used < old(budget).limit && !has_person(
            remote.persons@,
            id@,
        ) ==> r == Err::<usize, FederationError>(FederationError::NotFound),
        !has_person(old(store).persons@, id@) && old(budget).used >= old(budget).limit ==> r
            == Err::<usize, FederationError>(FederationError::FetchLimitExceeded),
        r is Err ==> *final(store) == *old(store),
{
    let found = locate_person(store, remote, id, budget)?;
    match found {
        Located::Local(i) => Ok(i),
        Located::Remote(i) => {
            let p = remote.persons[i].duplicate();
            store.persons.push(p);
            let n = store.persons.len() - 1;
            assert(person_at(store.persons@, id@, n as int));
            assert forall|j: int| 0 <= j < n implies !#[trigger] person_at(store.persons@, id@, j) by {
                assert(store.persons@[j] == old(store).persons@[j]);
                assert(!person_at(old(store).persons@, id@, j));
            }
            Ok(n)
        },
    }
}

/// Number of references in `ids` that are not held locally, each costing one
/// remote fetch.
pub open spec fn missing_count(local: Seq<Person>, ids: Seq<String>) -> nat
    decreases ids.len(),
{
    if ids.len() == 0 {
        0
    } else {
        missing_count(local, ids.drop_last()) + if has_person(local, ids.last()@) {
            0nat
        } else {
            1nat
        }
    }
}

/// Every reference can be found locally or at its peer.
pub open spec fn all_resolvable(store: LocalStore, remote: RemoteDirectory, ids: Seq<String>) -> bool {
    forall|j: int|
        0 <= j < ids.len() ==> has_person(store.persons@, (#[trigger] ids[j])@) || has_person(
            remote.persons@,
            ids[j]@,
        )
}

proof fn lemma_missing_prefix(local: Seq<Person>, ids: Seq<String>, k: int)
    requires
        0 <= k <= ids.len(),
    ensures
        missing_count(local, ids.subrange(0, k)) <= missing_count(local, ids),
    decreases ids.len(),
{
    if k < ids.len() {
        lemma_missing_prefix(local, ids.drop_last(), k);
        assert(ids.drop_last().subrange(0, k) =~= ids.subrange(0, k));
    } else {
        assert(ids.subrange(0, k) =~= ids);
    }
}

/// Resolves a chain of person references with one shared budget. Where every
/// reference can be found, this succeeds exactly when the references that need
/// a fetch fit in what is left of the budget.
pub fn resolve_actors(
    store: &LocalStore,
    remote: &RemoteDirectory,
    ids: &Vec<String>,
    budget: &mut FetchBudget,
) -> (r: Result<Vec<Located>, FederationError>)
    requires
        old(budget).wf(),
    ensures
        final(budget).wf(),
        final(budget).limit == old(budget).limit,
        all_resolvable(*store, *remote, ids@) ==> (r is Ok <==> missing_count(store.persons@, ids@)
            <= old(budget).remaining_spec()),
        all_resolvable(*store, *remote, ids@) && missing_count(store.persons@, ids@) > old(budget).remaining_spec() ==> r == Err::<Vec<Located>, FederationError>(
            FederationError::FetchLimitExceeded,
        ),
        r is Ok ==> r->Ok_0@.len() == ids@.len() && final(budget).used == old(budget).used
            + missing_count(store.persons@, ids@),
{
    let ghost start = budget.used;
    let mut out: Vec<Located> = Vec::new();
    let mut i: usize = 0;
    while i < ids.len()
        invariant
            i <= ids@.len(),
            out@.len() == i,
            budget.wf(),
            budget.limit == old(budget).limit,
            budget.used == start + missing_count(store.persons@, ids@.subrange(0, i as int)),
            start == old(budget).used,
        decreases ids@.len() - i,
    {
        let ghost pre = ids@.subrange(0, i as int);
        let ghost next = ids@.subrange(0, i + 1);
        assert(next.drop_last() =~= pre);
        assert(next.last() == ids@[i as int]);
        let res = locate_person(store, remote, &ids[i], budget);
        match res {
            Ok(l) => {
                out.push(l);
            },
            Err(e) => {
                proof {
                    if all_resolvable(*store, *remote, ids@) {
                        assert(has_person(store.persons@, ids@[i as int]@) || has_person(
                            remote.persons@,
                            ids@[i as int]@,
                        ));
                        lemma_missing_prefix(store.persons@, ids@, i + 1);
                    }
                }
                return Err(e);
            },
        }
        i = i + 1;
    }
    assert(ids@.subrange(0, ids@.len() as int) =~= ids@);
    Ok(out)
}

/// `c` is `o` as stored after a fetch: the same fields, its lists with the
/// same contents.
pub open spec fn stored_copy(c: Community, o: Community) -> bool {
    c.same_as(o)
}

/// Resolves a community and persists it when it had to be fetched. Returns
/// its index in the store afterwards.
pub fn dereference_community(
    store: &mut LocalStore,
    remote: &RemoteDirectory,
    id: &String,
    budget: &mut FetchBudget,
) -> (r: Result<usize, FederationError>)
    requires
        old(budget).wf(),
    ensures
        final(budget).wf(),
        final(budget).limit == old(budget).limit,
        final(budget).used >= old(budget).used,
        r is Ok ==> first_community(final(store).communities@, id@, r->Ok_0 as int),
        final(store).persons == old(store).persons,
        final(store).posts == old(store).posts,
        final(store).comments == old(store).comments,
        has_community(old(store).communities@, id@) ==> r is Ok && first_community(
            old(store).communities@,
            id@,
            r->Ok_0 as int,
        ) && *final(store) == *old(store) && final(budget).used == old(budget).used,
        !has_community(old(store).communities@, id@) ==> (r is Ok <==> old(budget).used < old(budget).limit
            && has_community(remote.communities@, id@)),
        !has_community(old(store).communities@, id@) && r is Ok ==> final(budget).used == old(budget).used + 1
            && r->Ok_0 == old(store).communities@.len() && final(store).communities@.len() == old(
            store).communities@.len() + 1 && final(store).communities@.subrange(
            0,
            old(store).communities@.len() as int,
        ) == old(store).communities@ && exists|j: int|
            #[trigger] first_community(remote.communities@, id@, j) && stored_copy(
                final(store).communities@.last(),
                remote.communities@[j],
            ),
        !has_community(old(store).communities@, id@) && old(budget).used >= old(budget).limit ==> r
            == Err::<usize, FederationError>(FederationError::FetchLimitExceeded),
        !has_community(old(store).communities@, id@) && old(budget).used < old(budget).limit
            && !has_community(remote.communities@, id@) ==> r == Err::<usize, FederationError>(
            FederationError::NotFound,
        ),
        r is Err ==> *final(store) == *old(store),
{
    let found = locate_community(store, remote, id, budget)?;
    match found {
        Located::Local(i) => Ok(i),
        Located::Remote(i) => {
            let c = remote.communities[i].duplicate();
            let ghost o = store.communities@;
            store.communities.push(c);
            let n = store.communities.len() - 1;
            assert(store.communities@.subrange(0, n as int) =~= o);
            assert(community_at(store.communities@, id@, n as int));
            assert forall|j: int| 0 <= j < n implies !#[trigger] community_at(store.communities@, id@, j) by {
                assert(store.communities@[j] == o[j]);
                assert(!community_at(o, id@, j));
            }
            Ok(n)
        },
    }
}

} // verus!
