use vstd::prelude::*;
use crate::error::FederationError;
use crate::iri::{same_domain, verify_domains_match};
use crate::store::{Comment, Community, LocalStore, Post, has_comment, has_community, has_post, comment_at, post_at, first_community, find_comment, find_community, find_post};

verus! {

/// Wire form of a comment.
pub struct Note {
    pub id: String,
    pub attributed_to: String,
    pub in_reply_to: String,
    pub content: String,
}

/// Wire form of a post.
pub struct Page {
    pub id: String,
    pub attributed_to: String,
    pub community: String,
    pub name: String,
}

/// A wire object that is either a post or a comment.
pub enum PageOrNote {
    Page(Box<Page>),
    Note(Box<Note>),
}

/// A local object that a delete can target.
pub enum DeletableObjects {
    Community(Box<Community>),
    Comment(Box<Comment>),
    Post(Box<Post>),
}

/// A local object that is either a post or a comment.
pub enum PostOrComment {
    Post(Box<Post>),
    Comment(Comment),
}

/// Comment created from its wire form.
pub open spec fn comment_of_note(n: Note) -> Comment {
    Comment {
        ap_id: n.id,
        creator: n.attributed_to,
        post: n.in_reply_to,
        content: n.content,
        deleted: false,
    }
}

/// Post created from its wire form.
pub open spec fn post_of_page(p: Page) -> Post {
    Post { ap_id: p.id, creator: p.attributed_to, community: p.community, local: false, deleted: false }
}

impl Note {
    pub fn to_comment(&self) -> (r: Comment)
        ensures
            r == comment_of_note(*self),
    {
        Comment {
            ap_id: self.id.clone(),
            creator: self.attributed_to.clone(),
            post: self.in_reply_to.clone(),
            content: self.content.clone(),
            deleted: false,
        }
    }
}

impl Page {
    pub fn to_post(&self) -> (r: Post)
        ensures
            r == post_of_page(*self),
    {
        Post {
            ap_id: self.id.clone(),
            creator: self.attributed_to.clone(),
            community: self.community.clone(),
            local: false,
            deleted: false,
        }
    }
}

impl DeletableObjects {
    /// Resolves `ap_id` among local objects, probing community, then post, then
    /// comment, and returns the first match.
    pub fn read_from_db(ap_id: &String, store: &LocalStore) -> (r: Result<DeletableObjects, FederationError>)
        ensures
            has_community(store.communities@, ap_id@) ==> match r {
                Ok(DeletableObjects::Community(c)) => exists|i: int|
                    #[trigger] first_community(store.communities@, ap_id@, i) && c.same_as(
                        store.communities@[i],
                    ),
                _ => false,
            },
            !has_community(store.communities@, ap_id@) && has_post(store.posts@, ap_id@) ==> match r {
                Ok(DeletableObjects::Post(p)) => exists|i: int|
                    #[trigger] post_at(store.posts@, ap_id@, i) && *p == store.posts@[i],
                _ => false,
            },
            !has_community(store.communities@, ap_id@) && !has_post(store.posts@, ap_id@) && has_comment(
                store.comments@,
                ap_id@,
            ) ==> match r {
                Ok(DeletableObjects::Comment(c)) => exists|i: int|
                    #[trigger] comment_at(store.comments@, ap_id@, i) && *c == store.comments@[i],
                _ => false,
            },
            !has_community(store.communities@, ap_id@) && !has_post(store.posts@, ap_id@) && !has_comment(
                store.comments@,
                ap_id@,
            ) ==> r == Err::<DeletableObjects, FederationError>(FederationError::NotFound),
    {
        if let Some(i) = find_community(&store.communities, ap_id) {
            return Ok(DeletableObjects::Community(Box::new(store.communities[i].duplicate())));
        }
        if let Some(i) = find_post(&store.posts, ap_id) {
            return Ok(DeletableObjects::Post(Box::new(store.posts[i].duplicate())));
        }
        if let Some(i) = find_comment(&store.comments, ap_id) {
            return Ok(DeletableObjects::Comment(Box::new(store.comments[i].duplicate())));
        }
        Err(FederationError::NotFound)
    }
}

impl PostOrComment {
    /// Resolves `object_id` among local posts, then local comments.
    pub fn read_from_apub_id(store: &LocalStore, object_id: &String) -> (r: Option<PostOrComment>)
        ensures
            has_post(store.posts@, object_id@) ==> match r {
                Some(PostOrComment::Post(p)) => exists|i: int|
                    #[trigger] post_at(store.posts@, object_id@, i) && *p == store.posts@[i],
                _ => false,
            },
            !has_post(store.posts@, object_id@) && has_comment(store.comments@, object_id@) ==> match r {
                Some(PostOrComment::Comment(c)) => exists|i: int|
                    #[trigger] comment_at(store.comments@, object_id@, i) && c == store.comments@[i],
                _ => false,
            },
            !has_post(store.posts@, object_id@) && !has_comment(store.comments@, object_id@) ==> r is None,
    {
        match find_post(&store.posts, object_id) {
            Some(i) => Some(PostOrComment::Post(Box::new(store.posts[i].duplicate()))),
            None => match find_comment(&store.comments, object_id) {
                Some(i) => Some(PostOrComment::Comment(store.comments[i].duplicate())),
                None => None,
            },
        }
    }

    /// Converts a received post or comment, whose identifier must lie on
    /// `expected_domain`'s domain.
    pub fn from_apub(apub: &PageOrNote, expected_domain: &String) -> (r: Result<PostOrComment, FederationError>)
        ensures
            match apub {
                PageOrNote::Page(p) => if same_domain(expected_domain@, p.id@) {
                    r == Ok::<PostOrComment, FederationError>(PostOrComment::Post(Box::new(post_of_page(**p))))
                } else {
                    r == Err::<PostOrComment, FederationError>(FederationError::DomainMismatch)
                },
                PageOrNote::Note(n) => if same_domain(expected_domain@, n.id@) {
                    r == Ok::<PostOrComment, FederationError>(PostOrComment::Comment(comment_of_note(**n)))
                } else {
                    r == Err::<PostOrComment, FederationError>(FederationError::DomainMismatch)
                },
            },
    {
        match apub {
            PageOrNote::Page(p) => {
                verify_domains_match(expected_domain, &p.id)?;
                Ok(PostOrComment::Post(Box::new(p.to_post())))
            },
            PageOrNote::Note(n) => {
                verify_domains_match(expected_domain, &n.id)?;
                Ok(PostOrComment::Comment(n.to_comment()))
            },
        }
    }

    /// The object's IRI.
    pub fn ap_id(&self) -> (r: String)
        ensures
            r == match self {
                PostOrComment::Post(p) => p.ap_id,
                PostOrComment::Comment(c) => c.ap_id,
            },
    {
        match self {
            PostOrComment::Post(p) => p.ap_id.clone(),
            PostOrComment::Comment(c) => c.ap_id.clone(),
        }
    }
}

} // verus!
