use vstd::prelude::*;
use crate::store::LocalStore;

verus! {

/// Notification kinds emitted after an activity is applied.
#[derive(Debug, Clone, Copy, PartialEq, Eq, Structural)]
pub enum UserOperationCrud {
    CreateComment,
    EditComment,
    DeleteCommunity,
    EditCommunity,
    DeletePost,
    EditPost,
    DeleteComment,
}

/// One event handed to the notification collaborator.
pub struct Notification {
    pub op: UserOperationCrud,
    pub object: String,
    pub recipients: Vec<String>,
}

/// A record of a processed activity.
pub struct LedgerEntry {
    pub ap_id: String,
    pub data: String,
    pub local: bool,
    pub sensitive: bool,
}

/// The kind of an outbound activity.
#[derive(Debug, Clone, Copy, PartialEq, Eq, Structural)]
pub enum ActivityKind {
    Create,
    Update,
    Remove,
    Delete,
    UndoDelete,
    Announce,
}

/// One outbound activity and the inboxes it goes to. `object` is the IRI the
/// activity is about; an announce by a community is about the activity it
/// relays, which `wraps` names too.
pub struct Delivery {
    pub activity_id: String,
    pub actor: String,
    pub kind: ActivityKind,
    pub object: String,
    pub wraps: Option<String>,
    pub inboxes: Vec<String>,
}

/// The state of this node that activities read and change.
pub struct Node {
    pub hostname: String,
    pub store: LocalStore,
    pub ledger: Vec<LedgerEntry>,
    pub notifications: Vec<Notification>,
    pub outbox: Vec<Delivery>,
}

pub open spec fn ledger_has(l: Seq<LedgerEntry>, id: Seq<char>) -> bool {
    exists|i: int| 0 <= i < l.len() && (#[trigger] l[i]).ap_id@ == id
}

/// Whether an activity with this identifier was processed before.
pub fn is_activity_already_known(ledger: &Vec<LedgerEntry>, activity_id: &String) -> (r: bool)
    ensures
        r == ledger_has(ledger@, activity_id@),
{
    let mut i: usize = 0;
    while i < ledger.len()
        invariant
            i <= ledger@.len(),
            forall|j: int| 0 <= j < i ==> (#[trigger] ledger@[j]).ap_id@ != activity_id@,
        decreases ledger@.len() - i,
    {
        if ledger[i].ap_id.eq(activity_id) {
            assert(ledger@[i as int].ap_id@ == activity_id@);
            return true;
        }
        i = i + 1;
    }
    false
}

/// `l[i]` is the first entry recorded for `id`.
pub open spec fn first_entry(l: Seq<LedgerEntry>, id: Seq<char>, i: int) -> bool {
    &&& 0 <= i < l.len()
    &&& l[i].ap_id@ == id
    &&& forall|j: int| 0 <= j < i ==> (#[trigger] l[j]).ap_id@ != id
}

/// The stored payload of a locally originated, non-sensitive activity; `None`
/// for any other or unknown identifier.
pub fn read_activity(ledger: &Vec<LedgerEntry>, activity_id: &String) -> (r: Option<String>)
    ensures
        r is Some <==> exists|i: int|
            #[trigger] first_entry(ledger@, activity_id@, i) && ledger@[i].local && !ledger@[i].sensitive,
        r is Some ==> exists|i: int|
            #[trigger] first_entry(ledger@, activity_id@, i) && r->0 == ledger@[i].data,
{
    let mut i: usize = 0;
    while i < ledger.len()
        invariant
            i <= ledger@.len(),
            forall|j: int| 0 <= j < i ==> (#[trigger] ledger@[j]).ap_id@ != activity_id@,
        decreases ledger@.len() - i,
    {
        if ledger[i].ap_id.eq(activity_id) {
            assert(first_entry(ledger@, activity_id@, i as int));
            if ledger[i].local && !ledger[i].sensitive {
                return Some(ledger[i].data.clone());
            } else {
                assert forall|k: int| #[trigger] first_entry(ledger@, activity_id@, k) implies k == i by {
                    if k > i {
                        assert(ledger@[i as int].ap_id@ != activity_id@);
                    }
                }
                return None;
            }
        }
        i = i + 1;
    }
    None
}

} // verus!
