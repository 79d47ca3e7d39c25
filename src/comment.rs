use vstd::prelude::*;
use crate::budget::FetchBudget;
use crate::checks::{community_cost, community_resolvable, member_in, member_of, person_cost, person_resolvable, verify_person_in_community};
use crate::error::FederationError;
use crate::iri::{same_domain, verify_domains_match};
use crate::node::{Node, Notification, UserOperationCrud};
use crate::outbound::{distinct, push_distinct};
use crate::resolve::RemoteDirectory;
use crate::store::{Comment, LocalStore, comment_at, find_comment, find_person, first_person, has_comment, has_community, has_person, has_post, has_str, lemma_first_person_unique, person_at, first_post, first_comment, lemma_first_post_unique, lemma_first_comment_unique, find_post};
use crate::targets::{Note, PostOrComment, comment_of_note};

verus! {

#[derive(Debug, Clone, Copy, PartialEq, Eq, Structural)]
pub enum CreateOrUpdateType {
    Create,
    Update,
}

/// A mention tag: the mentioned actor's IRI and its handle.
pub struct Mention {
    pub href: String,
    pub name: String,
}

/// Creation or edit of a comment.
pub struct CreateOrUpdateComment {
    pub actor: String,
    pub to: Vec<String>,
    pub object: Note,
    pub cc: Vec<String>,
    pub tag: Vec<Mention>,
    pub kind: CreateOrUpdateType,
    pub id: String,
    pub context: Vec<String>,
    pub unparsed: Vec<(String, String)>,
}

/// Whether a CreateOrUpdateComment is accepted, all references held locally.
pub open spec fn comment_accepted(store: LocalStore, a: CreateOrUpdateComment) -> bool {
    &&& a.cc@.len() > 0
    &&& member_in(store.communities@, a.cc@[0]@, a.actor@)
    &&& same_domain(a.actor@, a.object.id@)
    &&& a.object.attributed_to@ == a.actor@
    &&& has_post(store.posts@, a.object.in_reply_to@) || has_comment(store.comments@, a.object.in_reply_to@)
}

/// Whether a CreateOrUpdateComment is accepted when `remaining` remote
/// fetches are allowed.
pub open spec fn comment_accepted_with(
    store: LocalStore,
    remote: RemoteDirectory,
    remaining: int,
    a: CreateOrUpdateComment,
) -> bool {
    &&& a.cc@.len() > 0
    &&& person_resolvable(store, remote, a.actor@)
    &&& community_resolvable(store, remote, a.cc@[0]@)
    &&& person_cost(store, a.actor@) + community_cost(store, a.cc@[0]@) <= remaining
    &&& member_of(store, remote, a.cc@[0]@, a.actor@)
    &&& same_domain(a.actor@, a.object.id@)
    &&& a.object.attributed_to@ == a.actor@
    &&& has_post(store.posts@, a.object.in_reply_to@) || has_comment(store.comments@, a.object.in_reply_to@)
}

/// `s` is a person of this node.
pub open spec fn local_person(store: LocalStore, s: Seq<char>) -> bool {
    exists|i: int| #[trigger] first_person(store.persons@, s, i) && store.persons@[i].local
}

/// `s` is a mentioned local person other than `actor`.
pub open spec fn mentioned_recipient(store: LocalStore, tags: Seq<Mention>, actor: Seq<char>, s: Seq<char>) -> bool {
    &&& s != actor
    &&& local_person(store, s)
    &&& exists|j: int| 0 <= j < tags.len() && (#[trigger] tags[j]).href@ == s
}

/// `s` created the post, else the comment, with IRI `parent`.
pub open spec fn parent_creator(store: LocalStore, parent: Seq<char>, s: Seq<char>) -> bool {
    if has_post(store.posts@, parent) {
        exists|i: int| #[trigger] first_post(store.posts@, parent, i) && store.posts@[i].creator@ == s
    } else {
        exists|i: int| #[trigger] first_comment(store.comments@, parent, i) && store.comments@[i].creator@ == s
    }
}

/// `s` is to be notified of a comment by `actor` replying to `parent` with
/// mention tags `tags`: a local person other than the author who is mentioned
/// or who wrote what is replied to.
pub open spec fn notif_recipient(
    store: LocalStore,
    tags: Seq<Mention>,
    parent: Seq<char>,
    actor: Seq<char>,
    s: Seq<char>,
) -> bool {
    mentioned_recipient(store, tags, actor, s) || (s != actor && local_person(store, s) && parent_creator(
        store,
        parent,
        s,
    ))
}

/// The creator of the post, else the comment, with IRI `parent`.
fn find_parent_creator(store: &LocalStore, parent: &String) -> (r: Option<String>)
    ensures
        r is Some <==> has_post(store.posts@, parent@) || has_comment(store.comments@, parent@),
        forall|s: Seq<char>| parent_creator(*store, parent@, s) <==> (r is Some && s == r->0@),
{
    match find_post(&store.posts, parent) {
        Some(i) => {
            proof {
                assert forall|k: int| #[trigger] first_post(store.posts@, parent@, k) implies k == i by {
                    lemma_first_post_unique(store.posts@, parent@, i as int, k);
                }
            }
            Some(store.posts[i].creator.clone())
        },
        None => match find_comment(&store.comments, parent) {
            Some(i) => {
                proof {
                    assert forall|k: int| #[trigger] first_comment(store.comments@, parent@, k) implies k == i by {
                        lemma_first_comment_unique(store.comments@, parent@, i as int, k);
                    }
                }
                Some(store.comments[i].creator.clone())
            },
            None => {
                proof {
                    assert forall|s: Seq<char>| !parent_creator(*store, parent@, s) by {
                        if parent_creator(*store, parent@, s) {
                            let i = choose|i: int| #[trigger] first_comment(store.comments@, parent@, i) && store.comments@[i].creator@ == s;
                            assert(comment_at(store.comments@, parent@, i));
                        }
                    }
                }
                None
            },
        },
    }
}

/// Whether `s` is a local person.
fn is_local_person(store: &LocalStore, s: &String) -> (r: bool)
    ensures
        r == local_person(*store, s@),
{
    match find_person(&store.persons, s) {
        Some(i) => {
            proof {
                assert forall|k: int| #[trigger] first_person(store.persons@, s@, k) implies k == i by {
                    lemma_first_person_unique(store.persons@, s@, i as int, k);
                }
            }
            store.persons[i].local
        },
        None => {
            proof {
                assert forall|k: int| !#[trigger] first_person(store.persons@, s@, k) by {
                    if first_person(store.persons@, s@, k) {
                        assert(person_at(store.persons@, s@, k));
                    }
                }
            }
            false
        },
    }
}

/// `n2`'s comments are `n1`'s with `c` inserted, or replacing the comment with
/// its IRI.
pub open spec fn comment_upserted(n1: Node, n2: Node, c: Comment) -> bool {
    let s1 = n1.store.comments@;
    let s2 = n2.store.comments@;
    if has_comment(s1, c.ap_id@) {
        exists|i: int| #[trigger] comment_at(s1, c.ap_id@, i) && s2 == s1.update(i, c)
    } else {
        s2 == s1.push(c)
    }
}

pub open spec fn comment_op(kind: CreateOrUpdateType) -> UserOperationCrud {
    match kind {
        CreateOrUpdateType::Create => UserOperationCrud::CreateComment,
        CreateOrUpdateType::Update => UserOperationCrud::EditComment,
    }
}

/// The local persons to notify of a comment, each once.
pub fn get_notif_recipients(store: &LocalStore, actor: &String, tags: &Vec<Mention>, parent: &String) -> (r: Vec<
    String,
>)
    ensures
        distinct(r@),
        forall|s: Seq<char>| has_str(r@, s) <==> notif_recipient(*store, tags@, parent@, actor@, s),
{
    let mut r = mentioned_recipients(store, actor, tags);
    let creator = find_parent_creator(store, parent);
    if let Some(c) = creator {
        if !c.eq(actor) && is_local_person(store, &c) {
            push_distinct(&mut r, c);
        }
    }
    r
}

/// The mentioned local persons other than `actor`, each once.
fn mentioned_recipients(store: &LocalStore, actor: &String, tags: &Vec<Mention>) -> (r: Vec<String>)
    ensures
        distinct(r@),
        forall|s: Seq<char>| has_str(r@, s) <==> mentioned_recipient(*store, tags@, actor@, s),
{
    let mut r: Vec<String> = Vec::new();
    let mut k: usize = 0;
    while k < tags.len()
        invariant
            k <= tags@.len(),
            distinct(r@),
            forall|s: Seq<char>| has_str(r@, s) <==> mentioned_recipient(*store, tags@.subrange(0, k as int), actor@, s),
        decreases tags@.len() - k,
    {
        let ghost pre = tags@.subrange(0, k as int);
        let ghost next = tags@.subrange(0, k + 1);
        let ghost o = r@;
        let href = &tags[k].href;
        let found = find_person(&store.persons, href);
        if !href.eq(actor) {
            if let Some(i) = found {
                if store.persons[i].local {
                    push_distinct(&mut r, href.clone());
                }
            }
        }
        assert forall|s: Seq<char>| has_str(r@, s) <==> mentioned_recipient(*store, next, actor@, s) by {
            assert(has_str(o, s) <==> mentioned_recipient(*store, pre, actor@, s));
            if has_str(r@, s) && !has_str(o, s) {
                assert(next[k as int] == tags@[k as int]);
                if let Some(i) = found {
                    assert(first_person(store.persons@, s, i as int));
                }
            }
            if mentioned_recipient(*store, next, actor@, s) {
                let j = choose|j: int| 0 <= j < next.len() && (#[trigger] next[j]).href@ == s;
                if j < k {
                    assert(pre[j] == next[j]);
                } else {
                    assert(next[j] == tags@[k as int]);
                    let i2 = choose|i2: int| #[trigger] first_person(store.persons@, s, i2) && store.persons@[i2].local;
                    assert(person_at(store.persons@, s, i2));
                    if let Some(i) = found {
                        lemma_first_person_unique(store.persons@, s, i as int, i2);
                    }
                }
            }
            if mentioned_recipient(*store, pre, actor@, s) {
                let j = choose|j: int| 0 <= j < pre.len() && (#[trigger] pre[j]).href@ == s;
                assert(next[j] == pre[j]);
            }
        }
        k = k + 1;
    }
    assert(tags@.subrange(0, tags@.len() as int) =~= tags@);
    r
}

impl CreateOrUpdateComment {
    pub fn verify(&self, store: &LocalStore, remote: &RemoteDirectory, budget: &mut FetchBudget) -> (r: Result<
        (),
        FederationError,
    >)
        requires
            old(budget).wf(),
        ensures
            final(budget).wf(),
            final(budget).limit == old(budget).limit,
            final(budget).used >= old(budget).used,
            r is Ok <==> comment_accepted_with(*store, *remote, old(budget).remaining_spec(), *self),
            self.cc@.len() == 0 ==> r == Err::<(), FederationError>(FederationError::MalformedPayload),
            self.cc@.len() > 0 && has_person(store.persons@, self.actor@) && has_community(
                store.communities@,
                self.cc@[0]@,
            ) ==> final(budget).used == old(budget).used && (r is Ok <==> comment_accepted(*store, *self)),
            self.cc@.len() > 0 && person_resolvable(*store, *remote, self.actor@) && community_resolvable(
                *store,
                *remote,
                self.cc@[0]@,
            ) && person_cost(*store, self.actor@) + community_cost(*store, self.cc@[0]@) <= old(budget).remaining_spec()
                && member_of(*store, *remote, self.cc@[0]@, self.actor@) && !same_domain(self.actor@, self.object.id@) ==> r == Err::<(), FederationError>(FederationError::DomainMismatch),
            self.cc@.len() > 0 && person_resolvable(*store, *remote, self.actor@) && community_resolvable(
                *store,
                *remote,
                self.cc@[0]@,
            ) && person_cost(*store, self.actor@) + community_cost(*store, self.cc@[0]@) <= old(budget).remaining_spec()
                && member_of(*store, *remote, self.cc@[0]@, self.actor@) && same_domain(self.actor@, self.object.id@) && self.object.attributed_to@ != self.actor@ ==> r == Err::<(), FederationError>(
                FederationError::NotAuthorized,
            ),
    {
        if self.cc.len() == 0 {
            return Err(FederationError::MalformedPayload);
        }
        verify_person_in_community(store, remote, &self.actor, &self.cc[0], budget)?;
        verify_domains_match(&self.actor, &self.object.id)?;
        if !self.object.attributed_to.eq(&self.actor) {
            return Err(FederationError::NotAuthorized);
        }
        match PostOrComment::read_from_apub_id(store, &self.object.in_reply_to) {
            Some(_) => Ok(()),
            None => Err(FederationError::NotFound),
        }
    }

    /// Stores the comment and emits one created or edited notification.
    pub fn receive(&self, node: &mut Node) -> (r: Result<(), FederationError>)
        ensures
            r is Ok,
            comment_upserted(*old(node), *final(node), comment_of_note(self.object)),
            final(node).hostname == old(node).hostname,
            final(node).ledger == old(node).ledger,
            final(node).outbox == old(node).outbox,
            final(node).store.persons == old(node).store.persons,
            final(node).store.communities == old(node).store.communities,
            final(node).store.posts == old(node).store.posts,
            final(node).notifications@.len() == old(node).notifications@.len() + 1,
            final(node).notifications@.subrange(0, old(node).notifications@.len() as int) == old(
                node).notifications@,
            final(node).notifications@.last().op == comment_op(self.kind),
            final(node).notifications@.last().object@ == self.object.id@,
            distinct(final(node).notifications@.last().recipients@),
            forall|s: Seq<char>|
                has_str(final(node).notifications@.last().recipients@, s) <==> notif_recipient(
                    old(node).store,
                    self.tag@,
                    self.object.in_reply_to@,
                    self.actor@,
                    s,
                ),
    {
        let recipients = get_notif_recipients(&node.store, &self.actor, &self.tag, &self.object.in_reply_to);
        let comment = self.object.to_comment();
        match find_comment(&node.store.comments, &self.object.id) {
            Some(i) => {
                node.store.comments.set(i, comment);
            },
            None => {
                node.store.comments.push(comment);
            },
        }
        let op = match self.kind {
            CreateOrUpdateType::Create => UserOperationCrud::CreateComment,
            CreateOrUpdateType::Update => UserOperationCrud::EditComment,
        };
        let ghost o = node.notifications@;
        node.notifications.push(Notification { op, object: self.object.id.clone(), recipients });
        assert(node.notifications@.subrange(0, o.len() as int) =~= o);
        Ok(())
    }
}

} // verus!
