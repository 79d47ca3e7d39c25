use lemmy_apub_core::budget::FetchBudget;
use lemmy_apub_core::comment::{CreateOrUpdateComment, CreateOrUpdateType, Mention};
use lemmy_apub_core::deletion::{Delete, UndoDelete};
use lemmy_apub_core::error::FederationError;
use lemmy_apub_core::inbox::{get_activity, receive_activity, resolve_actor_key, ActivityQuery, InboxOutcome, SharedInboxActivities};
use lemmy_apub_core::iri::{assert_activity_not_local, domain_of, verify_domains_match};
use lemmy_apub_core::node::{ActivityKind, LedgerEntry, Node, UserOperationCrud};
use lemmy_apub_core::outbound::{send_apub_delete, send_apub_remove, send_to_community, DeleteOrUndo, MentionsAndAddresses};
use lemmy_apub_core::remove_mod::RemoveMod;
use lemmy_apub_core::resolve::{resolve_actors, RemoteDirectory};
use lemmy_apub_core::store::{Comment, Community, LocalStore, Person, Post};
use lemmy_apub_core::targets::{DeletableObjects, Note, PostOrComment};

fn s(x: &str) -> String {
    x.to_string()
}

fn person(ap_id: &str, local: bool) -> Person {
    Person {
        ap_id: s(ap_id),
        inbox: format!("{}/inbox", ap_id),
        shared_inbox: None,
        public_key: Some(s("KEY")),
        local,
    }
}

fn community(ap_id: &str, local: bool, mods: &[&str], members: &[&str]) -> Community {
    Community {
        ap_id: s(ap_id),
        inbox: format!("{}/inbox", ap_id),
        shared_inbox: None,
        moderators_url: format!("{}/moderators", ap_id),
        local,
        deleted: false,
        moderators: mods.iter().map(|m| s(m)).collect(),
        members: members.iter().map(|m| s(m)).collect(),
    }
}

const ALICE: &str = "https://home.example/u/alice";
const BOB: &str = "https://home.example/u/bob";
const MALLORY: &str = "https://evil.example/u/mallory";
const COMM: &str = "https://home.example/c/rust";
const POST: &str = "https://home.example/post/1";

fn node() -> Node {
    Node {
        hostname: s("node.example"),
        store: LocalStore {
            persons: vec![person(ALICE, true), person(BOB, true), person(MALLORY, false)],
            communities: vec![community(COMM, true, &[BOB], &[ALICE, BOB, MALLORY])],
            posts: vec![Post { ap_id: s(POST), creator: s(ALICE), community: s(COMM), local: true, deleted: false }],
            comments: vec![],
        },
        ledger: vec![],
        notifications: vec![],
        outbox: vec![],
    }
}

fn empty_remote() -> RemoteDirectory {
    RemoteDirectory { persons: vec![], communities: vec![] }
}

fn delete(actor: &str, object: &str, id: &str, summary: Option<&str>) -> Delete {
    Delete {
        actor: s(actor),
        to: vec![],
        object: s(object),
        cc: s(COMM),
        summary: summary.map(s),
        id: s(id),
        context: vec![],
        unparsed: vec![],
    }
}

fn deliver(n: &mut Node, a: &SharedInboxActivities, budget: &mut FetchBudget) -> Result<InboxOutcome, FederationError> {
    receive_activity(n, &empty_remote(), a, s("{}"), true, budget, &s("https://node.example/activities/delete/1"))
}

#[test]
fn delete_of_own_post_end_to_end() {
    let mut n = node();
    let mut budget = FetchBudget::new(5);
    let a = SharedInboxActivities::Delete(delete(ALICE, POST, "https://home.example/activities/delete/9", None));
    assert_eq!(deliver(&mut n, &a, &mut budget), Ok(InboxOutcome::Processed));
    assert!(n.store.posts[0].deleted);
    assert_eq!(n.notifications.len(), 1);
    assert_eq!(n.notifications[0].op, UserOperationCrud::DeletePost);
    assert_eq!(n.notifications[0].object, POST);
    assert_eq!(budget.used, 0);
    assert_eq!(n.ledger.len(), 1);
    assert!(!n.ledger[0].local);
    assert!(n.ledger[0].sensitive);
}

#[test]
fn redelivery_short_circuits() {
    let mut n = node();
    let mut budget = FetchBudget::new(5);
    let a = SharedInboxActivities::Delete(delete(ALICE, POST, "https://home.example/activities/delete/9", None));
    assert_eq!(deliver(&mut n, &a, &mut budget), Ok(InboxOutcome::Processed));
    n.store.posts[0].deleted = false;
    let mut budget2 = FetchBudget::new(5);
    assert_eq!(deliver(&mut n, &a, &mut budget2), Ok(InboxOutcome::AlreadyProcessed));
    assert!(!n.store.posts[0].deleted);
    assert_eq!(n.notifications.len(), 1);
    assert_eq!(n.ledger.len(), 1);
}

#[test]
fn local_origin_is_rejected() {
    let mut n = node();
    let mut budget = FetchBudget::new(5);
    let a = SharedInboxActivities::Delete(delete(ALICE, "https://nowhere.example/x", "https://node.example/activities/delete/2", None));
    assert_eq!(deliver(&mut n, &a, &mut budget), Err(FederationError::LocalOriginRejected));
    assert!(n.ledger.is_empty());
    assert_eq!(assert_activity_not_local(&s("https://peer.example/a/1"), &s("node.example")), Ok(()));
    assert_eq!(assert_activity_not_local(&s("not a url"), &s("node.example")), Err(FederationError::MalformedPayload));
}

#[test]
fn domain_mismatch_unless_moderator() {
    let mut n = node();
    let mut budget = FetchBudget::new(5);
    let a = SharedInboxActivities::Delete(delete(MALLORY, POST, "https://evil.example/activities/delete/1", None));
    assert_eq!(deliver(&mut n, &a, &mut budget), Err(FederationError::DomainMismatch));
    assert!(!n.store.posts[0].deleted);
    assert!(n.ledger.is_empty());
    n.store.communities[0].moderators.push(s(MALLORY));
    let a = SharedInboxActivities::Delete(delete(MALLORY, POST, "https://evil.example/activities/delete/2", Some("spam")));
    assert_eq!(deliver(&mut n, &a, &mut budget), Ok(InboxOutcome::Processed));
    assert!(n.store.posts[0].deleted);
}

#[test]
fn non_moderator_removal_is_not_authorized() {
    let mut n = node();
    let mut budget = FetchBudget::new(5);
    let a = SharedInboxActivities::Delete(delete(ALICE, POST, "https://home.example/activities/delete/3", Some("r")));
    assert_eq!(deliver(&mut n, &a, &mut budget), Err(FederationError::NotAuthorized));
}

#[test]
fn bad_signature_and_unknown_actor() {
    let mut n = node();
    let mut budget = FetchBudget::new(5);
    let a = SharedInboxActivities::Delete(delete(ALICE, POST, "https://home.example/activities/delete/4", None));
    let r = receive_activity(&mut n, &empty_remote(), &a, s("{}"), false, &mut budget, &s("x"));
    assert_eq!(r, Err(FederationError::SignatureInvalid));
    let a = SharedInboxActivities::Delete(delete("https://far.example/u/z", POST, "https://far.example/activities/delete/4", None));
    assert_eq!(deliver(&mut n, &a, &mut budget), Err(FederationError::ActorUnresolvable));
    assert_eq!(budget.used, 1);
}

#[test]
fn remote_actor_is_fetched_and_kept() {
    let mut n = node();
    let remote = RemoteDirectory { persons: vec![person("https://far.example/u/z", false)], communities: vec![] };
    n.store.communities[0].members.push(s("https://far.example/u/z"));
    let mut budget = FetchBudget::new(1);
    let a = SharedInboxActivities::Delete(delete("https://far.example/u/z", POST, "https://far.example/activities/delete/5", None));
    let r = receive_activity(&mut n, &remote, &a, s("{}"), true, &mut budget, &s("x"));
    assert_eq!(r, Err(FederationError::DomainMismatch));
    assert_eq!(budget.used, 1);
    assert_eq!(n.store.persons.len(), 4);
    let mut spent = FetchBudget::new(0);
    let mut n2 = node();
    let r = receive_activity(&mut n2, &remote, &a, s("{}"), true, &mut spent, &s("x"));
    assert_eq!(r, Err(FederationError::FetchLimitExceeded));
}

#[test]
fn fetch_budget_bounds_resolution() {
    let store = node().store;
    let remote = RemoteDirectory {
        persons: vec![person("https://a.example/u/1", false), person("https://a.example/u/2", false), person("https://a.example/u/3", false)],
        communities: vec![],
    };
    let two = vec![s("https://a.example/u/1"), s(ALICE), s("https://a.example/u/2")];
    let mut b = FetchBudget::new(2);
    assert!(resolve_actors(&store, &remote, &two, &mut b).is_ok());
    assert_eq!(b.used, 2);
    let three = vec![s("https://a.example/u/1"), s("https://a.example/u/2"), s("https://a.example/u/3")];
    let mut b = FetchBudget::new(2);
    assert_eq!(resolve_actors(&store, &remote, &three, &mut b).err(), Some(FederationError::FetchLimitExceeded));
    let mut b = FetchBudget::new(2);
    assert_eq!(b.try_charge(), Ok(()));
    assert_eq!(b.remaining(), 1);
}

#[test]
fn deletable_priority() {
    let id = "https://home.example/x/1";
    let mut store = node().store;
    store.comments.push(Comment { ap_id: s(id), creator: s(ALICE), post: s(POST), content: s("c"), deleted: false });
    assert!(matches!(DeletableObjects::read_from_db(&s(id), &store), Ok(DeletableObjects::Comment(_))));
    store.posts.push(Post { ap_id: s(id), creator: s(ALICE), community: s(COMM), local: true, deleted: false });
    assert!(matches!(DeletableObjects::read_from_db(&s(id), &store), Ok(DeletableObjects::Post(_))));
    assert!(matches!(PostOrComment::read_from_apub_id(&store, &s(id)), Some(PostOrComment::Post(_))));
    store.communities.push(community(id, true, &[], &[]));
    assert!(matches!(DeletableObjects::read_from_db(&s(id), &store), Ok(DeletableObjects::Community(_))));
    assert!(matches!(DeletableObjects::read_from_db(&s("https://none.example/1"), &store), Err(FederationError::NotFound)));
    assert!(PostOrComment::read_from_apub_id(&store, &s("https://none.example/1")).is_none());
}

fn remove_mod(target: Option<String>, object: &str, id: &str) -> RemoveMod {
    RemoveMod { actor: s(BOB), to: vec![], object: s(object), cc: s(COMM), target, id: s(id), context: vec![], unparsed: vec![] }
}

#[test]
fn remove_moderator() {
    let mut n = node();
    n.store.communities[0].moderators.push(s(ALICE));
    n.store.communities[0].moderators.push(s(ALICE));
    let mut budget = FetchBudget::new(5);
    let a = SharedInboxActivities::RemoveMod(remove_mod(Some(format!("{}/moderators", COMM)), ALICE, "https://home.example/activities/remove/1"));
    assert_eq!(deliver(&mut n, &a, &mut budget), Ok(InboxOutcome::Processed));
    assert_eq!(n.store.communities[0].moderators, vec![s(BOB)]);
    let a = SharedInboxActivities::RemoveMod(remove_mod(Some(s("https://home.example/other")), BOB, "https://home.example/activities/remove/2"));
    assert_eq!(deliver(&mut n, &a, &mut budget), Err(FederationError::MalformedPayload));
}

#[test]
fn remove_without_target_acts_as_moderator_delete() {
    let mut n1 = node();
    let mut n2 = node();
    let mut b1 = FetchBudget::new(5);
    let mut b2 = FetchBudget::new(5);
    let rm = SharedInboxActivities::RemoveMod(remove_mod(None, POST, "https://home.example/activities/remove/3"));
    let mut d = delete(BOB, POST, "https://home.example/activities/remove/3", Some("https://home.example/activities/remove/3"));
    d.actor = s(BOB);
    let del = SharedInboxActivities::Delete(d);
    assert_eq!(deliver(&mut n1, &rm, &mut b1), deliver(&mut n2, &del, &mut b2));
    assert!(n1.store.posts[0].deleted && n2.store.posts[0].deleted);
    assert_eq!(n1.notifications.len(), n2.notifications.len());
    assert_eq!(n1.notifications[0].op, n2.notifications[0].op);
}

#[test]
fn undo_delete_restores() {
    let mut n = node();
    n.store.posts[0].deleted = true;
    let mut budget = FetchBudget::new(5);
    let u = UndoDelete {
        actor: s(ALICE),
        to: vec![],
        object: delete(ALICE, POST, "https://home.example/activities/delete/7", None),
        cc: s(COMM),
        id: s("https://home.example/activities/undo/7"),
        context: vec![],
        unparsed: vec![],
    };
    assert_eq!(deliver(&mut n, &SharedInboxActivities::UndoDelete(u), &mut budget), Ok(InboxOutcome::Processed));
    assert!(!n.store.posts[0].deleted);
    assert_eq!(n.notifications[0].op, UserOperationCrud::EditPost);
}

#[test]
fn local_community_deletion_emits_tombstone() {
    let mut n = node();
    let mut budget = FetchBudget::new(5);
    let a = SharedInboxActivities::Delete(delete(BOB, COMM, "https://home.example/activities/delete/8", None));
    assert_eq!(deliver(&mut n, &a, &mut budget), Ok(InboxOutcome::Processed));
    assert!(n.store.communities[0].deleted);
    assert_eq!(n.outbox.len(), 1);
    assert_eq!(n.outbox[0].inboxes.len(), 3);
    assert_eq!(n.outbox[0].kind, ActivityKind::Delete);
    assert_eq!(n.outbox[0].object, COMM);
    assert_eq!(n.outbox[0].actor, BOB);
    assert_eq!(n.outbox[0].activity_id, "https://node.example/activities/delete/1");
    assert_eq!(n.notifications[0].op, UserOperationCrud::DeleteCommunity);
}

fn create_comment(kind: CreateOrUpdateType, cc: Vec<String>, content: &str) -> CreateOrUpdateComment {
    CreateOrUpdateComment {
        actor: s(ALICE),
        to: vec![],
        object: Note { id: s("https://home.example/comment/5"), attributed_to: s(ALICE), in_reply_to: s(POST), content: s(content) },
        cc,
        tag: vec![
            Mention { href: s(BOB), name: s("@bob") },
            Mention { href: s(MALLORY), name: s("@mallory") },
            Mention { href: s(BOB), name: s("@bob") },
            Mention { href: s(ALICE), name: s("@alice") },
        ],
        kind,
        id: s("https://home.example/activities/create/5"),
        context: vec![],
        unparsed: vec![(s("extra"), s("1"))],
    }
}

#[test]
fn create_comment_end_to_end() {
    let mut n = node();
    let mut budget = FetchBudget::new(5);
    let a = SharedInboxActivities::CreateOrUpdateComment(create_comment(CreateOrUpdateType::Create, vec![s(COMM)], "hi"));
    assert_eq!(deliver(&mut n, &a, &mut budget), Ok(InboxOutcome::Processed));
    assert_eq!(n.store.comments.len(), 1);
    assert_eq!(n.store.comments[0].content, "hi");
    assert_eq!(n.store.comments[0].creator, ALICE);
    assert_eq!(n.notifications.len(), 1);
    assert_eq!(n.notifications[0].op, UserOperationCrud::CreateComment);
    assert_eq!(n.notifications[0].recipients, vec![s(BOB)]);
    let mut up = create_comment(CreateOrUpdateType::Update, vec![s(COMM)], "edited");
    up.id = s("https://home.example/activities/update/5");
    assert_eq!(deliver(&mut n, &SharedInboxActivities::CreateOrUpdateComment(up), &mut budget), Ok(InboxOutcome::Processed));
    assert_eq!(n.store.comments.len(), 1);
    assert_eq!(n.store.comments[0].content, "edited");
    assert_eq!(n.notifications[1].op, UserOperationCrud::EditComment);
}

#[test]
fn create_comment_without_cc_is_malformed() {
    let mut n = node();
    let mut budget = FetchBudget::new(5);
    let a = SharedInboxActivities::CreateOrUpdateComment(create_comment(CreateOrUpdateType::Create, vec![], "hi"));
    assert_eq!(deliver(&mut n, &a, &mut budget), Err(FederationError::MalformedPayload));
    n.store.communities[0].members.clear();
    let a = SharedInboxActivities::CreateOrUpdateComment(create_comment(CreateOrUpdateType::Create, vec![s(COMM)], "hi"));
    assert_eq!(deliver(&mut n, &a, &mut budget), Err(FederationError::NotAuthorized));
}

#[test]
fn domains_read_by_url() {
    assert_eq!(domain_of(&s("https://sub.example.com/a?b")), Some(s("sub.example.com")));
    assert_eq!(domain_of(&s("https://127.0.0.1/")), None);
    assert_eq!(verify_domains_match(&s("https://a.example/x"), &s("https://a.example/y")), Ok(()));
    assert_eq!(verify_domains_match(&s("https://a.example/x"), &s("https://b.example/x")), Err(FederationError::DomainMismatch));
    assert_eq!(verify_domains_match(&s("not a url"), &s("also not")), Err(FederationError::DomainMismatch));
}

#[test]
fn status_codes() {
    assert_eq!(FederationError::MalformedPayload.status_code(), 400);
    assert_eq!(FederationError::SignatureInvalid.status_code(), 401);
    assert_eq!(FederationError::NotAuthorized.status_code(), 403);
    assert_eq!(FederationError::NotFound.status_code(), 404);
    assert_eq!(FederationError::Internal.status_code(), 500);
}

#[test]
fn activity_read_endpoint() {
    let ledger = vec![
        LedgerEntry { ap_id: s("https://node.example/activities/create/1"), data: s("{\"a\":1}"), local: true, sensitive: false },
        LedgerEntry { ap_id: s("https://node.example/activities/create/2"), data: s("{}"), local: true, sensitive: true },
        LedgerEntry { ap_id: s("https://node.example/activities/create/3"), data: s("{}"), local: false, sensitive: false },
    ];
    let q = |id: &str| ActivityQuery { type_: s("create"), id: s(id) };
    let base = s("https://node.example");
    assert_eq!(get_activity(&ledger, &q("1"), &base), Some(s("{\"a\":1}")));
    assert_eq!(get_activity(&ledger, &q("2"), &base), None);
    assert_eq!(get_activity(&ledger, &q("3"), &base), None);
    assert_eq!(get_activity(&ledger, &q("4"), &base), None);
}

#[test]
fn fan_out_deduplicates_endpoints() {
    let mut persons = vec![person(ALICE, true), person(BOB, true), person(MALLORY, false)];
    persons[0].shared_inbox = Some(s("https://home.example/inbox"));
    persons[1].shared_inbox = Some(s("https://home.example/inbox"));
    let c = community(COMM, true, &[], &[ALICE, BOB, MALLORY, "https://unknown.example/u"]);
    let extra = vec![s("https://evil.example/u/mallory/inbox"), s("https://x.example/inbox")];
    let d = send_to_community(&s("act"), ActivityKind::Create, &s("obj"), &persons[0], &c, &persons, &extra, &s("ann"));
    assert_eq!(d.activity_id, "ann");
    assert_eq!(d.actor, COMM);
    assert_eq!(d.kind, ActivityKind::Announce);
    assert_eq!(d.wraps, Some(s("act")));
    assert_eq!(d.inboxes, vec![s("https://home.example/inbox"), s("https://evil.example/u/mallory/inbox"), s("https://x.example/inbox")]);
    let remote_c = community("https://far.example/c/x", false, &[], &[]);
    let d = send_to_community(&s("act"), ActivityKind::Create, &s("obj"), &persons[0], &remote_c, &persons, &vec![s("https://x.example/inbox"), s("https://x.example/inbox")], &s("ann"));
    assert_eq!(d.activity_id, "act");
    assert_eq!(d.inboxes, vec![s("https://x.example/inbox"), s("https://far.example/c/x/inbox")]);
    assert_eq!(d.kind, ActivityKind::Create);
    assert_eq!(d.object, "obj");
}

#[test]
fn outbound_comment() {
    let n = node();
    let comment = Comment { ap_id: s("https://home.example/comment/9"), creator: s(ALICE), post: s(POST), content: s("c"), deleted: false };
    let maa = MentionsAndAddresses { ccs: vec![s(COMM)], inboxes: vec![], tags: vec![] };
    let (a, d) = CreateOrUpdateComment::send(&comment, &n.store.persons[0], CreateOrUpdateType::Create, &n.store, maa, &s("id1"), &s("id2")).ok().unwrap();
    assert_eq!(a.object.id, comment.ap_id);
    assert_eq!(a.to, vec![s("https://www.w3.org/ns/activitystreams#Public")]);
    assert_eq!(d.wraps, Some(s("id1")));
    let orphan = Comment { post: s("https://none.example/p"), ..comment };
    let maa = MentionsAndAddresses { ccs: vec![], inboxes: vec![], tags: vec![] };
    assert!(CreateOrUpdateComment::send(&orphan, &n.store.persons[0], CreateOrUpdateType::Create, &n.store, maa, &s("id1"), &s("id2")).is_err());
}

#[test]
fn outbound_removals_and_deletions() {
    let n = node();
    let c = &n.store.communities[0];
    let (rm, d) = RemoveMod::send(c, &n.store.persons[0], &n.store.persons[1], &n.store.persons, &s("r1"), &s("a1"));
    assert_eq!(rm.target, Some(format!("{}/moderators", COMM)));
    assert_eq!(rm.object, ALICE);
    assert!(d.inboxes.contains(&format!("{}/inbox", ALICE)));
    let ids = (&s("d1"), &s("d0"), &s("a2"));
    match send_apub_remove(&n.store.persons[1], c, &s(POST), s("spam"), true, &n.store.persons, ids).0 {
        DeleteOrUndo::Delete(del) => assert_eq!(del.summary, Some(s("spam"))),
        DeleteOrUndo::UndoDelete(_) => panic!("expected a delete"),
    }
    match send_apub_delete(&n.store.persons[0], c, &s(POST), false, &n.store.persons, ids).0 {
        DeleteOrUndo::UndoDelete(u) => {
            assert_eq!(u.object.object, POST);
            assert_eq!(u.object.id, "d0");
            assert_eq!(u.id, "d1");
        }
        DeleteOrUndo::Delete(_) => panic!("expected an undo"),
    }
}

#[test]
fn reply_notifies_thread_participant() {
    let mut n = node();
    let mut budget = FetchBudget::new(5);
    let mut c = create_comment(CreateOrUpdateType::Create, vec![s(COMM)], "reply");
    c.actor = s(BOB);
    c.object.attributed_to = s(BOB);
    c.tag = vec![Mention { href: s(BOB), name: s("@bob") }];
    let a = SharedInboxActivities::CreateOrUpdateComment(c);
    assert_eq!(deliver(&mut n, &a, &mut budget), Ok(InboxOutcome::Processed));
    assert_eq!(n.notifications[0].recipients, vec![s(ALICE)]);
}

#[test]
fn comment_attributed_to_another_is_refused() {
    let mut n = node();
    let mut budget = FetchBudget::new(5);
    let mut c = create_comment(CreateOrUpdateType::Create, vec![s(COMM)], "forged");
    c.object.attributed_to = s(BOB);
    let a = SharedInboxActivities::CreateOrUpdateComment(c);
    assert_eq!(deliver(&mut n, &a, &mut budget), Err(FederationError::NotAuthorized));
    assert!(n.store.comments.is_empty());
    assert!(n.ledger.is_empty());
}

#[test]
fn undo_of_local_community_emits_undo() {
    let mut n = node();
    n.store.communities[0].deleted = true;
    let mut budget = FetchBudget::new(5);
    let u = UndoDelete {
        actor: s(BOB),
        to: vec![],
        object: delete(BOB, COMM, "https://home.example/activities/delete/10", None),
        cc: s(COMM),
        id: s("https://home.example/activities/undo/10"),
        context: vec![],
        unparsed: vec![],
    };
    assert_eq!(deliver(&mut n, &SharedInboxActivities::UndoDelete(u), &mut budget), Ok(InboxOutcome::Processed));
    assert!(!n.store.communities[0].deleted);
    assert_eq!(n.outbox[0].kind, ActivityKind::UndoDelete);
}

#[test]
fn remove_moderator_of_fetched_community() {
    let far = "https://far.example/c/go";
    let remote = RemoteDirectory {
        persons: vec![],
        communities: vec![community(far, false, &[BOB, ALICE], &[BOB])],
    };
    let rm = RemoveMod {
        actor: s(BOB),
        to: vec![],
        object: s(ALICE),
        cc: s(far),
        target: Some(format!("{}/moderators", far)),
        id: s("https://home.example/activities/remove/20"),
        context: vec![],
        unparsed: vec![],
    };
    let a = SharedInboxActivities::RemoveMod(rm);
    let mut n = node();
    let mut budget = FetchBudget::new(4);
    let r = receive_activity(&mut n, &remote, &a, s("{}"), true, &mut budget, &s("x"));
    assert_eq!(r, Ok(InboxOutcome::Processed));
    assert_eq!(budget.used, 4);
    assert_eq!(n.store.communities.len(), 2);
    assert_eq!(n.store.communities[1].moderators, vec![s(BOB)]);
    let mut n2 = node();
    let mut short = FetchBudget::new(3);
    let r = receive_activity(&mut n2, &remote, &a, s("{}"), true, &mut short, &s("x"));
    assert_eq!(r, Err(FederationError::FetchLimitExceeded));
    assert_eq!(n2.store.communities.len(), 1);
}

#[test]
fn non_member_delete_is_not_authorized() {
    let mut n = node();
    n.store.communities[0].members.retain(|m| m != ALICE);
    let mut budget = FetchBudget::new(5);
    let a = SharedInboxActivities::Delete(delete(ALICE, POST, "https://home.example/activities/delete/30", None));
    assert_eq!(deliver(&mut n, &a, &mut budget), Err(FederationError::NotAuthorized));
    assert!(n.ledger.is_empty());
}

#[test]
fn read_endpoint_refuses_unparsable_ids() {
    let ledger = vec![LedgerEntry { ap_id: s("x/activities/create/1"), data: s("{}"), local: true, sensitive: false }];
    let q = ActivityQuery { type_: s("create"), id: s("1") };
    assert_eq!(get_activity(&ledger, &q, &s("x")), None);
}

#[test]
fn actor_key_is_handed_out() {
    let mut n = node();
    let remote = RemoteDirectory { persons: vec![person("https://far.example/u/k", false)], communities: vec![] };
    let mut budget = FetchBudget::new(1);
    assert_eq!(resolve_actor_key(&mut n, &remote, &s("https://far.example/u/k"), &mut budget), Ok(s("KEY")));
    assert_eq!(n.store.persons.len(), 4);
    assert_eq!(resolve_actor_key(&mut n, &remote, &s("https://none.example/u"), &mut budget), Err(FederationError::FetchLimitExceeded));
}
