use vstd::prelude::*;
use crate::comment::{CreateOrUpdateComment, CreateOrUpdateType, Mention};
use crate::deletion::{Delete, UndoDelete};
use crate::error::FederationError;
use crate::node::{ActivityKind, Delivery};
use crate::remove_mod::RemoveMod;
use crate::store::{first_community, Comment, Community, LocalStore, Person, endpoint_of, first_person, has_str, contains_string, find_person, find_post, find_community, first_post, has_community};
use crate::targets::Note;

verus! {

/// The delivery endpoint of `p`.
pub open spec fn endpoint(p: Person) -> Seq<char> {
    endpoint_of(p.shared_inbox, p.inbox)@
}

/// No endpoint occurs twice.
pub open spec fn distinct(v: Seq<String>) -> bool {
    forall|a: int, b: int| 0 <= a < b < v.len() ==> (#[trigger] v[a])@ != (#[trigger] v[b])@
}

/// `s` is the endpoint of a known person listed in `ids`.
pub open spec fn endpoint_of_listed(persons: Seq<Person>, ids: Seq<String>, s: Seq<char>) -> bool {
    exists|j: int, i: int|
        0 <= j < ids.len() && #[trigger] first_person(persons, (#[trigger] ids[j])@, i) && endpoint(persons[i]) == s
}

/// Appends `s` unless an equal endpoint is present.
pub fn push_distinct(v: &mut Vec<String>, s: String)
    requires
        distinct(old(v)@),
    ensures
        distinct(final(v)@),
        forall|t: Seq<char>| has_str(final(v)@, t) <==> (has_str(old(v)@, t) || t == s@),
{
    if !contains_string(v, &s) {
        let ghost o = v@;
        v.push(s);
        assert forall|t: Seq<char>| has_str(v@, t) <==> (has_str(o, t) || t == s@) by {
            if has_str(v@, t) {
                let j = choose|j: int| 0 <= j < v@.len() && (#[trigger] v@[j])@ == t;
                if j < o.len() {
                    assert(o[j] == v@[j]);
                }
            }
            if has_str(o, t) {
                let j = choose|j: int| 0 <= j < o.len() && (#[trigger] o[j])@ == t;
                assert(v@[j] == o[j]);
            }
            if t == s@ {
                assert(v@[o.len() as int]@ == t);
            }
        }
    }
}

/// The delivery endpoints (shared inbox, else inbox) of the listed persons
/// that this node knows, each endpoint once.
pub fn collect_inboxes(persons: &Vec<Person>, ids: &Vec<String>) -> (r: Vec<String>)
    ensures
        distinct(r@),
        forall|s: Seq<char>| has_str(r@, s) <==> endpoint_of_listed(persons@, ids@, s),
{
    let mut r: Vec<String> = Vec::new();
    let mut k: usize = 0;
    while k < ids.len()
        invariant
            k <= ids@.len(),
            distinct(r@),
            forall|s: Seq<char>| has_str(r@, s) <==> endpoint_of_listed(persons@, ids@.subrange(0, k as int), s),
        decreases ids@.len() - k,
    {
        let ghost pre = ids@.subrange(0, k as int);
        let ghost next = ids@.subrange(0, k + 1);
        match find_person(persons, &ids[k]) {
            Some(i) => {
                let e = persons[i].shared_inbox_or_inbox_url();
                push_distinct(&mut r, e);
                assert forall|s: Seq<char>| has_str(r@, s) <==> endpoint_of_listed(persons@, next, s) by {
                    if endpoint_of_listed(persons@, next, s) {
                        let (j, i2) = choose|j: int, i2: int|
                            0 <= j < next.len() && #[trigger] first_person(persons@, (#[trigger] next[j])@, i2)
                                && endpoint(persons@[i2]) == s;
                        if j < k {
                            assert(pre[j] == next[j]);
                        } else {
                            crate::store::lemma_first_person_unique(persons@, ids@[k as int]@, i as int, i2);
                        }
                    }
                    if endpoint_of_listed(persons@, pre, s) {
                        let (j, i2) = choose|j: int, i2: int|
                            0 <= j < pre.len() && #[trigger] first_person(persons@, (#[trigger] pre[j])@, i2)
                                && endpoint(persons@[i2]) == s;
                        assert(next[j] == pre[j]);
                    }
                    if s == e@ {
                        assert(next[k as int] == ids@[k as int]);
                    }
                }
            },
            None => {
                assert forall|s: Seq<char>| has_str(r@, s) <==> endpoint_of_listed(persons@, next, s) by {
                    if endpoint_of_listed(persons@, next, s) {
                        let (j, i2) = choose|j: int, i2: int|
                            0 <= j < next.len() && #[trigger] first_person(persons@, (#[trigger] next[j])@, i2)
                                && endpoint(persons@[i2]) == s;
                        if j < k {
                            assert(pre[j] == next[j]);
                        } else {
                            assert(crate::store::person_at(persons@, ids@[k as int]@, i2));
                        }
                    }
                    if endpoint_of_listed(persons@, pre, s) {
                        let (j, i2) = choose|j: int, i2: int|
                            0 <= j < pre.len() && #[trigger] first_person(persons@, (#[trigger] pre[j])@, i2)
                                && endpoint(persons@[i2]) == s;
                        assert(next[j] == pre[j]);
                    }
                }
            },
        }
        k = k + 1;
    }
    assert(ids@.subrange(0, ids@.len() as int) =~= ids@);
    r
}

/// `v` with repeated endpoints dropped.
pub fn distinct_endpoints(v: &Vec<String>) -> (r: Vec<String>)
    ensures
        distinct(r@),
        forall|s: Seq<char>| has_str(r@, s) <==> has_str(v@, s),
{
    let mut r: Vec<String> = Vec::new();
    let mut i: usize = 0;
    while i < v.len()
        invariant
            i <= v@.len(),
            distinct(r@),
            forall|s: Seq<char>| has_str(r@, s) <==> has_str(v@.subrange(0, i as int), s),
        decreases v@.len() - i,
    {
        let ghost pre = v@.subrange(0, i as int);
        let ghost next = v@.subrange(0, i + 1);
        push_distinct(&mut r, v[i].clone());
        assert forall|s: Seq<char>| has_str(r@, s) <==> has_str(next, s) by {
            if has_str(next, s) {
                let k = choose|k: int| 0 <= k < next.len() && (#[trigger] next[k])@ == s;
                if k < i {
                    assert(pre[k] == next[k]);
                }
            }
            if has_str(pre, s) {
                let k = choose|k: int| 0 <= k < pre.len() && (#[trigger] pre[k])@ == s;
                assert(next[k] == pre[k]);
            }
            assert(next[i as int] == v@[i as int]);
        }
        i = i + 1;
    }
    assert(v@.subrange(0, v@.len() as int) =~= v@);
    r
}

/// How an activity `activity_id` of kind `kind` about `object` by `actor` in `community`
/// is addressed. A community of this node relays it itself: an announce
/// (`announce_id`) by the community to its members' endpoints and to
/// `additional`. A remote community gets the activity in its inbox, together
/// with `additional`. No endpoint occurs twice.
pub open spec fn addressed(
    d: Delivery,
    activity_id: String,
    kind: ActivityKind,
    object: String,
    actor: Person,
    community: Community,
    persons: Seq<Person>,
    additional: Seq<String>,
    announce_id: String,
) -> bool {
    &&& distinct(d.inboxes@)
    &&& if community.local {
        &&& d.actor == community.ap_id
        &&& d.activity_id == announce_id
        &&& d.kind == ActivityKind::Announce
        &&& d.object == activity_id
        &&& d.wraps == Some(activity_id)
        &&& forall|s: Seq<char>|
            has_str(d.inboxes@, s) <==> (endpoint_of_listed(persons, community.members@, s) || has_str(additional, s))
    } else {
        &&& d.actor == actor.ap_id
        &&& d.activity_id == activity_id
        &&& d.kind == kind
        &&& d.object == object
        &&& d.wraps is None
        &&& forall|s: Seq<char>|
            has_str(d.inboxes@, s) <==> (s == endpoint_of(community.shared_inbox, community.inbox)@ || has_str(
                additional,
                s,
            ))
    }
}

/// Addresses an activity of `actor` in `community` (see `addressed`).
pub fn send_to_community(
    activity_id: &String,
    kind: ActivityKind,
    object: &String,
    actor: &Person,
    community: &Community,
    persons: &Vec<Person>,
    additional_inboxes: &Vec<String>,
    announce_id: &String,
) -> (r: Delivery)
    ensures
        addressed(r, *activity_id, kind, *object, *actor, *community, persons@, additional_inboxes@, *announce_id),
{
    if community.local {
        let mut inboxes = collect_inboxes(persons, &community.members);
        let mut i: usize = 0;
        while i < additional_inboxes.len()
            invariant
                i <= additional_inboxes@.len(),
                distinct(inboxes@),
                forall|s: Seq<char>|
                    has_str(inboxes@, s) <==> (endpoint_of_listed(persons@, community.members@, s) || has_str(
                        additional_inboxes@.subrange(0, i as int),
                        s,
                    )),
            decreases additional_inboxes@.len() - i,
        {
            let ghost pre = additional_inboxes@.subrange(0, i as int);
            let ghost next = additional_inboxes@.subrange(0, i + 1);
            push_distinct(&mut inboxes, additional_inboxes[i].clone());
            assert forall|s: Seq<char>| has_str(next, s) <==> (has_str(pre, s) || s == additional_inboxes@[i as int]@) by {
                if has_str(next, s) {
                    let k = choose|k: int| 0 <= k < next.len() && (#[trigger] next[k])@ == s;
                    if k < i {
                        assert(pre[k] == next[k]);
                    }
                }
                if has_str(pre, s) {
                    let k = choose|k: int| 0 <= k < pre.len() && (#[trigger] pre[k])@ == s;
                    assert(next[k] == pre[k]);
                }
                assert(next[i as int] == additional_inboxes@[i as int]);
            }
            i = i + 1;
        }
        assert(additional_inboxes@.subrange(0, additional_inboxes@.len() as int) =~= additional_inboxes@);
        Delivery {
            activity_id: announce_id.clone(),
            actor: community.ap_id.clone(),
            kind: ActivityKind::Announce,
            object: activity_id.clone(),
            wraps: Some(activity_id.clone()),
            inboxes,
        }
    } else {
        let mut inboxes = distinct_endpoints(additional_inboxes);
        push_distinct(&mut inboxes, community.shared_inbox_or_inbox_url());
        Delivery { activity_id: activity_id.clone(), actor: actor.ap_id.clone(), kind, object: object.clone(), wraps: None, inboxes }
    }
}

/// `to` is the public audience alone.
pub open spec fn is_public_audience(to: Seq<String>) -> bool {
    to.len() == 1 && to[0]@ == "https://www.w3.org/ns/activitystreams#Public"@
}

/// The audience every public activity is addressed to.
pub fn public_audience() -> (r: Vec<String>)
    ensures
        is_public_audience(r@),
{
    vec!["https://www.w3.org/ns/activitystreams#Public".to_owned()]
}

/// The JSON-LD context marker of emitted activities.
pub fn activity_context() -> (r: Vec<String>)
    ensures
        r@.len() == 1,
        r@[0]@ == "https://www.w3.org/ns/activitystreams"@,
{
    vec!["https://www.w3.org/ns/activitystreams".to_owned()]
}

pub open spec fn comment_kind(kind: CreateOrUpdateType) -> ActivityKind {
    match kind {
        CreateOrUpdateType::Create => ActivityKind::Create,
        CreateOrUpdateType::Update => ActivityKind::Update,
    }
}

/// `d` is the Delete of `object_id` by `actor` in `community` that
/// `Delete::send` builds.
pub open spec fn delete_built(
    d: Delete,
    actor: Person,
    community: Community,
    object_id: String,
    summary: Option<String>,
    id: String,
) -> bool {
    &&& d.actor == actor.ap_id
    &&& is_public_audience(d.to@)
    &&& d.object == object_id
    &&& d.cc == community.ap_id
    &&& d.summary == summary
    &&& d.id == id
    &&& d.unparsed@.len() == 0
}

/// `u` is the undoing, with identifier `id`, of the Delete `delete_id`.
pub open spec fn undo_built(
    u: UndoDelete,
    actor: Person,
    community: Community,
    object_id: String,
    summary: Option<String>,
    delete_id: String,
    id: String,
) -> bool {
    &&& u.actor == actor.ap_id
    &&& is_public_audience(u.to@)
    &&& delete_built(u.object, actor, community, object_id, summary, delete_id)
    &&& u.cc == community.ap_id
    &&& u.id == id
    &&& u.unparsed@.len() == 0
}

/// Mentions found in a comment by the mention-collection collaborator: the
/// IRIs to put in `cc`, the inboxes to deliver to, and the tags.
pub struct MentionsAndAddresses {
    pub ccs: Vec<String>,
    pub inboxes: Vec<String>,
    pub tags: Vec<Mention>,
}

impl CreateOrUpdateComment {
    /// Builds the activity for a local comment and addresses it through the
    /// comment's community. Fails when the post or community is unknown.
    pub fn send(
        comment: &Comment,
        actor: &Person,
        kind: CreateOrUpdateType,
        store: &LocalStore,
        maa: MentionsAndAddresses,
        id: &String,
        announce_id: &String,
    ) -> (r: Result<(CreateOrUpdateComment, Delivery), FederationError>)
        ensures
            r is Ok <==> exists|i: int|
                #[trigger] first_post(store.posts@, comment.post@, i) && has_community(
                    store.communities@,
                    store.posts@[i].community@,
                ),
            r is Err ==> r == Err::<(CreateOrUpdateComment, Delivery), FederationError>(FederationError::NotFound),
            r is Ok ==> ({
                let (a, d) = r->Ok_0;
                &&& a.actor == actor.ap_id
                &&& a.id == *id
                &&& a.kind == kind
                &&& a.object == (Note {
                    id: comment.ap_id,
                    attributed_to: comment.creator,
                    in_reply_to: comment.post,
                    content: comment.content,
                })
                &&& a.cc == maa.ccs
                &&& a.tag == maa.tags
                &&& a.unparsed@.len() == 0
                &&& is_public_audience(a.to@)
                &&& exists|i: int, j: int|
                    #[trigger] first_post(store.posts@, comment.post@, i) && #[trigger] first_community(
                        store.communities@,
                        store.posts@[i].community@,
                        j,
                    ) && addressed(
                        d,
                        *id,
                        comment_kind(kind),
                        comment.ap_id,
                        *actor,
                        store.communities@[j],
                        store.persons@,
                        maa.inboxes@,
                        *announce_id,
                    )
            }),
    {
        let pi = match find_post(&store.posts, &comment.post) {
            Some(i) => i,
            None => {
                return Err(FederationError::NotFound);
            },
        };
        let ci = match find_community(&store.communities, &store.posts[pi].community) {
            Some(i) => i,
            None => {
                proof {
                    assert forall|i: int| #[trigger] first_post(store.posts@, comment.post@, i) implies !has_community(
                        store.communities@,
                        store.posts@[i].community@,
                    ) by {
                        crate::store::lemma_first_post_unique(store.posts@, comment.post@, pi as int, i);
                    }
                }
                return Err(FederationError::NotFound);
            },
        };
        let object = Note {
            id: comment.ap_id.clone(),
            attributed_to: comment.creator.clone(),
            in_reply_to: comment.post.clone(),
            content: comment.content.clone(),
        };
        let akind = match kind {
            CreateOrUpdateType::Create => ActivityKind::Create,
            CreateOrUpdateType::Update => ActivityKind::Update,
        };
        let delivery = send_to_community(
            id,
            akind,
            &comment.ap_id,
            actor,
            &store.communities[ci],
            &store.persons,
            &maa.inboxes,
            announce_id,
        );
        let activity = CreateOrUpdateComment {
            actor: actor.ap_id.clone(),
            to: public_audience(),
            object,
            cc: maa.ccs,
            tag: maa.tags,
            kind,
            id: id.clone(),
            context: activity_context(),
            unparsed: Vec::new(),
        };
        Ok((activity, delivery))
    }
}

impl RemoveMod {
    /// Builds the removal of `removed_mod` from the moderators of `community`,
    /// addressed through the community and to the removed moderator.
    pub fn send(
        community: &Community,
        removed_mod: &Person,
        actor: &Person,
        persons: &Vec<Person>,
        id: &String,
        announce_id: &String,
    ) -> (r: (RemoveMod, Delivery))
        ensures
            r.0.actor == actor.ap_id,
            r.0.object == removed_mod.ap_id,
            r.0.cc == community.ap_id,
            r.0.target == Some(community.moderators_url),
            r.0.id == *id,
            is_public_audience(r.0.to@),
            r.0.unparsed@.len() == 0,
            addressed(
                r.1,
                *id,
                ActivityKind::Remove,
                removed_mod.ap_id,
                *actor,
                *community,
                persons@,
                seq![endpoint_of(removed_mod.shared_inbox, removed_mod.inbox)],
                *announce_id,
            ),
    {
        let remove = RemoveMod {
            actor: actor.ap_id.clone(),
            to: public_audience(),
            object: removed_mod.ap_id.clone(),
            cc: community.ap_id.clone(),
            target: Some(community.moderators_url.clone()),
            id: id.clone(),
            context: activity_context(),
            unparsed: Vec::new(),
        };
        let inboxes = vec![removed_mod.shared_inbox_or_inbox_url()];
        assert(inboxes@ =~= seq![endpoint_of(removed_mod.shared_inbox, removed_mod.inbox)]);
        let delivery = send_to_community(id, ActivityKind::Remove, &removed_mod.ap_id, actor, community, persons, &inboxes, announce_id);
        (remove, delivery)
    }
}

impl Delete {
    /// Builds a Delete (a removal when `summary` holds a reason) of
    /// `object_id` in `community`, addressed through the community.
    pub fn send(
        actor: &Person,
        community: &Community,
        object_id: &String,
        summary: Option<String>,
        persons: &Vec<Person>,
        id: &String,
        announce_id: &String,
    ) -> (r: (Delete, Delivery))
        ensures
            delete_built(r.0, *actor, *community, *object_id, summary, *id),
            addressed(r.1, *id, ActivityKind::Delete, *object_id, *actor, *community, persons@, Seq::empty(), *announce_id),
    {
        let delete = Delete {
            actor: actor.ap_id.clone(),
            to: public_audience(),
            object: object_id.clone(),
            cc: community.ap_id.clone(),
            summary,
            id: id.clone(),
            context: activity_context(),
            unparsed: Vec::new(),
        };
        let none: Vec<String> = Vec::new();
        assert(none@ =~= Seq::<String>::empty());
        let delivery = send_to_community(id, ActivityKind::Delete, object_id, actor, community, persons, &none, announce_id);
        (delete, delivery)
    }
}

impl UndoDelete {
    /// Builds the undoing of a Delete (`delete_id`) of `object_id`.
    pub fn send(
        actor: &Person,
        community: &Community,
        object_id: &String,
        summary: Option<String>,
        persons: &Vec<Person>,
        delete_id: &String,
        id: &String,
        announce_id: &String,
    ) -> (r: (UndoDelete, Delivery))
        ensures
            undo_built(r.0, *actor, *community, *object_id, summary, *delete_id, *id),
            addressed(r.1, *id, ActivityKind::UndoDelete, *object_id, *actor, *community, persons@, Seq::empty(), *announce_id),
    {
        let object = Delete {
            actor: actor.ap_id.clone(),
            to: public_audience(),
            object: object_id.clone(),
            cc: community.ap_id.clone(),
            summary,
            id: delete_id.clone(),
            context: activity_context(),
            unparsed: Vec::new(),
        };
        let undo = UndoDelete {
            actor: actor.ap_id.clone(),
            to: public_audience(),
            object,
            cc: community.ap_id.clone(),
            id: id.clone(),
            context: activity_context(),
            unparsed: Vec::new(),
        };
        let none: Vec<String> = Vec::new();
        assert(none@ =~= Seq::<String>::empty());
        let delivery = send_to_community(id, ActivityKind::UndoDelete, object_id, actor, community, persons, &none, announce_id);
        (undo, delivery)
    }
}

/// An outbound deletion or its undoing.
pub enum DeleteOrUndo {
    Delete(Delete),
    UndoDelete(UndoDelete),
}

/// Federates the deletion (`deleted`) or restoration of `object_id` by its
/// author. `ids` are fresh identifiers: the activity, the Delete that an undo
/// wraps, and the community's announce.
pub fn send_apub_delete(
    actor: &Person,
    community: &Community,
    object_id: &String,
    deleted: bool,
    persons: &Vec<Person>,
    ids: (&String, &String, &String),
) -> (r: (DeleteOrUndo, Delivery))
    ensures
        deleted ==> match r.0 {
            DeleteOrUndo::Delete(d) => delete_built(d, *actor, *community, *object_id, None, *ids.0),
            _ => false,
        },
        !deleted ==> match r.0 {
            DeleteOrUndo::UndoDelete(u) => undo_built(u, *actor, *community, *object_id, None, *ids.1, *ids.0),
            _ => false,
        },
        addressed(
            r.1,
            *ids.0,
            if deleted { ActivityKind::Delete } else { ActivityKind::UndoDelete },
            *object_id,
            *actor,
            *community,
            persons@,
            Seq::empty(),
            *ids.2,
        ),
{
    if deleted {
        let (d, dl) = Delete::send(actor, community, object_id, None, persons, ids.0, ids.2);
        (DeleteOrUndo::Delete(d), dl)
    } else {
        let (u, dl) = UndoDelete::send(actor, community, object_id, None, persons, ids.1, ids.0, ids.2);
        (DeleteOrUndo::UndoDelete(u), dl)
    }
}

/// Federates a moderator's removal (`removed`) or its reversal, with a reason.
pub fn send_apub_remove(
    actor: &Person,
    community: &Community,
    object_id: &String,
    reason: String,
    removed: bool,
    persons: &Vec<Person>,
    ids: (&String, &String, &String),
) -> (r: (DeleteOrUndo, Delivery))
    ensures
        removed ==> match r.0 {
            DeleteOrUndo::Delete(d) => delete_built(d, *actor, *community, *object_id, Some(reason), *ids.0),
            _ => false,
        },
        !removed ==> match r.0 {
            DeleteOrUndo::UndoDelete(u) => undo_built(u, *actor, *community, *object_id, Some(reason), *ids.1, *ids.0),
            _ => false,
        },
        addressed(
            r.1,
            *ids.0,
            if removed { ActivityKind::Delete } else { ActivityKind::UndoDelete },
            *object_id,
            *actor,
            *community,
            persons@,
            Seq::empty(),
            *ids.2,
        ),
{
    if removed {
        let (d, dl) = Delete::send(actor, community, object_id, Some(reason), persons, ids.0, ids.2);
        (DeleteOrUndo::Delete(d), dl)
    } else {
        let (u, dl) = UndoDelete::send(actor, community, object_id, Some(reason), persons, ids.1, ids.0, ids.2);
        (DeleteOrUndo::UndoDelete(u), dl)
    }
}

} // verus!
