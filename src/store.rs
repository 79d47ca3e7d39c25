use vstd::prelude::*;

verus! {

/// A federated person actor.
pub struct Person {
    pub ap_id: String,
    pub inbox: String,
    pub shared_inbox: Option<String>,
    pub public_key: Option<String>,
    pub local: bool,
}

/// A community actor with its moderator list and member (follower) set.
pub struct Community {
    pub ap_id: String,
    pub inbox: String,
    pub shared_inbox: Option<String>,
    pub moderators_url: String,
    pub local: bool,
    pub deleted: bool,
    pub moderators: Vec<String>,
    pub members: Vec<String>,
}

pub struct Post {
    pub ap_id: String,
    pub creator: String,
    pub community: String,
    pub local: bool,
    pub deleted: bool,
}

pub struct Comment {
    pub ap_id: String,
    pub creator: String,
    pub post: String,
    pub content: String,
    pub deleted: bool,
}

/// The entities this node holds, each kind keyed by its IRI.
pub struct LocalStore {
    pub persons: Vec<Person>,
    pub communities: Vec<Community>,
    pub posts: Vec<Post>,
    pub comments: Vec<Comment>,
}

pub fn clone_opt(o: &Option<String>) -> (r: Option<String>)
    ensures
        r == *o,
{
    match o {
        Some(s) => Some(s.clone()),
        None => None,
    }
}

pub fn clone_strings(v: &Vec<String>) -> (r: Vec<String>)
    ensures
        r@ == v@,
{
    let mut r: Vec<String> = Vec::new();
    let mut i: usize = 0;
    while i < v.len()
        invariant
            i <= v@.len(),
            r@ == v@.subrange(0, i as int),
        decreases v@.len() - i,
    {
        r.push(v[i].clone());
        i = i + 1;
        assert(r@ =~= v@.subrange(0, i as int));
    }
    assert(r@ =~= v@);
    r
}

/// Whether some string of `v` reads `s`.
pub open spec fn has_str(v: Seq<String>, s: Seq<char>) -> bool {
    exists|j: int| 0 <= j < v.len() && (#[trigger] v[j])@ == s
}

/// Whether `v` holds a string equal to `s`.
pub fn contains_string(v: &Vec<String>, s: &String) -> (r: bool)
    ensures
        r == has_str(v@, s@),
{
    let mut i: usize = 0;
    while i < v.len()
        invariant
            i <= v@.len(),
            forall|j: int| 0 <= j < i ==> (#[trigger] v@[j])@ != s@,
        decreases v@.len() - i,
    {
        if v[i].eq(s) {
            assert(v@[i as int]@ == s@);
            return true;
        }
        i = i + 1;
    }
    false
}

impl Person {
    pub fn duplicate(&self) -> (r: Person)
        ensures
            r == *self,
    {
        Person {
            ap_id: self.ap_id.clone(),
            inbox: self.inbox.clone(),
            shared_inbox: clone_opt(&self.shared_inbox),
            public_key: clone_opt(&self.public_key),
            local: self.local,
        }
    }

    /// The shared inbox where one is published, else the actor's own inbox.
    pub fn shared_inbox_or_inbox_url(&self) -> (r: String)
        ensures
            r == endpoint_of(self.shared_inbox, self.inbox),
    {
        match &self.shared_inbox {
            Some(s) => s.clone(),
            None => self.inbox.clone(),
        }
    }
}

pub open spec fn endpoint_of(shared: Option<String>, inbox: String) -> String {
    match shared {
        Some(s) => s,
        None => inbox,
    }
}

impl Community {
    /// Field-by-field equality, the lists compared by their contents.
    pub open spec fn same_as(&self, o: Community) -> bool {
        &&& self.ap_id == o.ap_id
        &&& self.inbox == o.inbox
        &&& self.shared_inbox == o.shared_inbox
        &&& self.moderators_url == o.moderators_url
        &&& self.local == o.local
        &&& self.deleted == o.deleted
        &&& self.moderators@ == o.moderators@
        &&& self.members@ == o.members@
    }

    pub fn duplicate(&self) -> (r: Community)
        ensures
            r.same_as(*self),
    {
        Community {
            ap_id: self.ap_id.clone(),
            inbox: self.inbox.clone(),
            shared_inbox: clone_opt(&self.shared_inbox),
            moderators_url: self.moderators_url.clone(),
            local: self.local,
            deleted: self.deleted,
            moderators: clone_strings(&self.moderators),
            members: clone_strings(&self.members),
        }
    }

    pub fn shared_inbox_or_inbox_url(&self) -> (r: String)
        ensures
            r == endpoint_of(self.shared_inbox, self.inbox),
    {
        match &self.shared_inbox {
            Some(s) => s.clone(),
            None => self.inbox.clone(),
        }
    }
}

impl Post {
    pub fn duplicate(&self) -> (r: Post)
        ensures
            r == *self,
    {
        Post {
            ap_id: self.ap_id.clone(),
            creator: self.creator.clone(),
            community: self.community.clone(),
            local: self.local,
            deleted: self.deleted,
        }
    }
}

impl Comment {
    pub fn duplicate(&self) -> (r: Comment)
        ensures
            r == *self,
    {
        Comment {
            ap_id: self.ap_id.clone(),
            creator: self.creator.clone(),
            post: self.post.clone(),
            content: self.content.clone(),
            deleted: self.deleted,
        }
    }
}

pub open spec fn person_at(s: Seq<Person>, id: Seq<char>, i: int) -> bool {
    0 <= i < s.len() && s[i].ap_id@ == id
}

pub open spec fn community_at(s: Seq<Community>, id: Seq<char>, i: int) -> bool {
    0 <= i < s.len() && s[i].ap_id@ == id
}

pub open spec fn post_at(s: Seq<Post>, id: Seq<char>, i: int) -> bool {
    0 <= i < s.len() && s[i].ap_id@ == id
}

pub open spec fn comment_at(s: Seq<Comment>, id: Seq<char>, i: int) -> bool {
    0 <= i < s.len() && s[i].ap_id@ == id
}

/// `s[i]` is the first community with IRI `id`.
pub open spec fn first_community(s: Seq<Community>, id: Seq<char>, i: int) -> bool {
    community_at(s, id, i) && forall|j: int| 0 <= j < i ==> !#[trigger] community_at(s, id, j)
}

pub proof fn lemma_first_community_unique(s: Seq<Community>, id: Seq<char>, i: int, k: int)
    requires
        first_community(s, id, i),
        first_community(s, id, k),
    ensures
        i == k,
{
    if i < k {
        assert(community_at(s, id, i));
    } else if k < i {
        assert(community_at(s, id, k));
    }
}

/// `s[i]` is the first person with IRI `id`.
pub open spec fn first_person(s: Seq<Person>, id: Seq<char>, i: int) -> bool {
    person_at(s, id, i) && forall|j: int| 0 <= j < i ==> !#[trigger] person_at(s, id, j)
}

pub proof fn lemma_first_person_unique(s: Seq<Person>, id: Seq<char>, i: int, k: int)
    requires
        first_person(s, id, i),
        first_person(s, id, k),
    ensures
        i == k,
{
    if i < k {
        assert(person_at(s, id, i));
    } else if k < i {
        assert(person_at(s, id, k));
    }
}

/// `s[i]` is the first post with IRI `id`.
pub open spec fn first_post(s: Seq<Post>, id: Seq<char>, i: int) -> bool {
    post_at(s, id, i) && forall|j: int| 0 <= j < i ==> !#[trigger] post_at(s, id, j)
}

/// `s[i]` is the first comment with IRI `id`.
pub open spec fn first_comment(s: Seq<Comment>, id: Seq<char>, i: int) -> bool {
    comment_at(s, id, i) && forall|j: int| 0 <= j < i ==> !#[trigger] comment_at(s, id, j)
}

pub proof fn lemma_first_comment_unique(s: Seq<Comment>, id: Seq<char>, i: int, k: int)
    requires
        first_comment(s, id, i),
        first_comment(s, id, k),
    ensures
        i == k,
{
    if i < k {
        assert(comment_at(s, id, i));
    } else if k < i {
        assert(comment_at(s, id, k));
    }
}

pub proof fn lemma_first_post_unique(s: Seq<Post>, id: Seq<char>, i: int, k: int)
    requires
        first_post(s, id, i),
        first_post(s, id, k),
    ensures
        i == k,
{
    if i < k {
        assert(post_at(s, id, i));
    } else if k < i {
        assert(post_at(s, id, k));
    }
}

pub open spec fn has_person(s: Seq<Person>, id: Seq<char>) -> bool {
    exists|i: int| #[trigger] person_at(s, id, i)
}

pub open spec fn has_community(s: Seq<Community>, id: Seq<char>) -> bool {
    exists|i: int| #[trigger] community_at(s, id, i)
}

pub open spec fn has_post(s: Seq<Post>, id: Seq<char>) -> bool {
    exists|i: int| #[trigger] post_at(s, id, i)
}

pub open spec fn has_comment(s: Seq<Comment>, id: Seq<char>) -> bool {
    exists|i: int| #[trigger] comment_at(s, id, i)
}

/// Index of the first person with IRI `id`.
pub fn find_person(s: &Vec<Person>, id: &String) -> (r: Option<usize>)
    ensures
        r is Some <==> has_person(s@, id@),
        r is Some ==> first_person(s@, id@, r->0 as int),
{
    let mut i: usize = 0;
    while i < s.len()
        invariant
            i <= s@.len(),
            forall|j: int| 0 <= j < i ==> !person_at(s@, id@, j),
        decreases s@.len() - i,
    {
        if s[i].ap_id.eq(id) {
            assert(person_at(s@, id@, i as int));
            return Some(i);
        }
        i = i + 1;
    }
    None
}

/// Index of the first community with IRI `id`.
pub fn find_community(s: &Vec<Community>, id: &String) -> (r: Option<usize>)
    ensures
        r is Some <==> has_community(s@, id@),
        r is Some ==> first_community(s@, id@, r->0 as int),
{
    let mut i: usize = 0;
    while i < s.len()
        invariant
            i <= s@.len(),
            forall|j: int| 0 <= j < i ==> !community_at(s@, id@, j),
        decreases s@.len() - i,
    {
        if s[i].ap_id.eq(id) {
            assert(community_at(s@, id@, i as int));
            return Some(i);
        }
        i = i + 1;
    }
    None
}

/// Index of the first post with IRI `id`.
pub fn find_post(s: &Vec<Post>, id: &String) -> (r: Option<usize>)
    ensures
        r is Some <==> has_post(s@, id@),
        r is Some ==> first_post(s@, id@, r->0 as int),
{
    let mut i: usize = 0;
    while i < s.len()
        invariant
            i <= s@.len(),
            forall|j: int| 0 <= j < i ==> !post_at(s@, id@, j),
        decreases s@.len() - i,
    {
        if s[i].ap_id.eq(id) {
            assert(post_at(s@, id@, i as int));
            return Some(i);
        }
        i = i + 1;
    }
    None
}

/// Index of the first comment with IRI `id`.
pub fn find_comment(s: &Vec<Comment>, id: &String) -> (r: Option<usize>)
    ensures
        r is Some <==> has_comment(s@, id@),
        r is Some ==> first_comment(s@, id@, r->0 as int),
{
    let mut i: usize = 0;
    while i < s.len()
        invariant
            i <= s@.len(),
            forall|j: int| 0 <= j < i ==> !comment_at(s@, id@, j),
        decreases s@.len() - i,
    {
        if s[i].ap_id.eq(id) {
            assert(comment_at(s@, id@, i as int));
            return Some(i);
        }
        i = i + 1;
    }
    None
}

} // verus!
