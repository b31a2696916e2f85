//! The store of posts and help requests. A post is found by its id, a help
//! request by its post's id and its applicant; neither key occurs twice.

use vstd::prelude::*;
use crate::errors::CoduetError;
use crate::identity::Identity;
use crate::state::{HelpRequest, Post};

verus! {

/// All posts and help requests of the marketplace.
#[derive(Debug)]
pub struct Registry {
    pub posts: Vec<Post>,
    pub help_requests: Vec<HelpRequest>,
}

/// No two posts of the sequence share an id.
pub open spec fn distinct_ids(posts: Seq<Post>) -> bool {
    forall|i: int, j: int|
        0 <= i < j < posts.len() ==> (#[trigger] posts[i]).id != (#[trigger] posts[j]).id
}

/// Whether a request is the one of `applicant` to the post `post_id`.
pub open spec fn keyed(request: HelpRequest, post_id: u64, applicant: Identity) -> bool {
    request.post_id == post_id && request.applicant == applicant
}

/// No two requests of the sequence share post and applicant.
pub open spec fn distinct_keys(requests: Seq<HelpRequest>) -> bool {
    forall|i: int, j: int|
        0 <= i < j < requests.len() ==> !keyed(
            #[trigger] requests[i],
            (#[trigger] requests[j]).post_id,
            requests[j].applicant,
        )
}

/// Replacing a post by one of the same id keeps the ids distinct.
pub proof fn lemma_replaced_post_keeps_ids(posts: Seq<Post>, i: int, post: Post)
    requires
        distinct_ids(posts),
        0 <= i < posts.len(),
        post.id == posts[i].id,
    ensures
        distinct_ids(posts.update(i, post)),
{
    let after = posts.update(i, post);
    assert forall|a: int, b: int| 0 <= a < b < after.len() implies (#[trigger] after[a]).id != (
    #[trigger] after[b]).id by {
        assert(posts[a].id != posts[b].id);
    }
}

/// Replacing a request by one of the same key keeps the keys distinct.
pub proof fn lemma_replaced_request_keeps_keys(requests: Seq<HelpRequest>, i: int, request: HelpRequest)
    requires
        distinct_keys(requests),
        0 <= i < requests.len(),
        request.post_id == requests[i].post_id,
        request.applicant == requests[i].applicant,
    ensures
        distinct_keys(requests.update(i, request)),
{
    let after = requests.update(i, request);
    assert forall|a: int, b: int| 0 <= a < b < after.len() implies !keyed(
        #[trigger] after[a],
        (#[trigger] after[b]).post_id,
        after[b].applicant,
    ) by {
        assert(!keyed(requests[a], requests[b].post_id, requests[b].applicant));
    }
}

/// A place in the sequence where a post with the id stands, if there is one.
pub open spec fn index_of_post(posts: Seq<Post>, id: u64) -> Option<int> {
    if exists|i: int| 0 <= i < posts.len() && (#[trigger] posts[i]).id == id {
        Some(choose|i: int| 0 <= i < posts.len() && (#[trigger] posts[i]).id == id)
    } else {
        None
    }
}

/// A place in the sequence where the request of `applicant` to the post
/// `post_id` stands, if there is one.
pub open spec fn index_of_help_request(
    requests: Seq<HelpRequest>,
    post_id: u64,
    applicant: Identity,
) -> Option<int> {
    if exists|i: int| 0 <= i < requests.len() && keyed(#[trigger] requests[i], post_id, applicant) {
        Some(
            choose|i: int|
                0 <= i < requests.len() && keyed(#[trigger] requests[i], post_id, applicant),
        )
    } else {
        None
    }
}

impl Registry {
    /// Every key names at most one record.
    pub open spec fn well_formed(self) -> bool {
        distinct_ids(self.posts@) && distinct_keys(self.help_requests@)
    }

    /// Where the post `id` stands, if the store holds it.
    pub open spec fn post_index(self, id: u64) -> Option<int> {
        index_of_post(self.posts@, id)
    }

    /// The post `id`, if the store holds it.
    pub open spec fn post(self, id: u64) -> Option<Post> {
        match self.post_index(id) {
            Some(i) => Some(self.posts@[i]),
            None => None,
        }
    }

    /// Where the request of `applicant` to the post `post_id` stands, if the
    /// store holds it.
    pub open spec fn help_request_index(self, post_id: u64, applicant: Identity) -> Option<int> {
        index_of_help_request(self.help_requests@, post_id, applicant)
    }

    /// The request of `applicant` to the post `post_id`, if the store holds it.
    pub open spec fn help_request(self, post_id: u64, applicant: Identity) -> Option<HelpRequest> {
        match self.help_request_index(post_id, applicant) {
            Some(i) => Some(self.help_requests@[i]),
            None => None,
        }
    }

    /// In a well-formed store the post at a place is the post of its id.
    pub proof fn lemma_post_at(self, i: int)
        requires
            self.well_formed(),
            0 <= i < self.posts@.len(),
        ensures
            self.post_index(self.posts@[i].id) == Some(i),
            self.post(self.posts@[i].id) == Some(self.posts@[i]),
    {
        let id = self.posts@[i].id;
        let k = choose|k: int| 0 <= k < self.posts@.len() && (#[trigger] self.posts@[k]).id == id;
        assert(0 <= k < self.posts@.len() && self.posts@[k].id == id);
        assert(k == i) by {
            if k < i {
                assert(self.posts@[k].id != self.posts@[i].id);
            } else if i < k {
                assert(self.posts@[i].id != self.posts@[k].id);
            }
        }
    }

    /// In a well-formed store the request at a place is the request of its
    /// key.
    pub proof fn lemma_help_request_at(self, i: int)
        requires
            self.well_formed(),
            0 <= i < self.help_requests@.len(),
        ensures
            self.help_request_index(self.help_requests@[i].post_id, self.help_requests@[i].applicant)
                == Some(i),
            self.help_request(self.help_requests@[i].post_id, self.help_requests@[i].applicant)
                == Some(self.help_requests@[i]),
    {
        let post_id = self.help_requests@[i].post_id;
        let applicant = self.help_requests@[i].applicant;
        let k = choose|k: int|
            0 <= k < self.help_requests@.len() && keyed(
                #[trigger] self.help_requests@[k],
                post_id,
                applicant,
            );
        assert(keyed(self.help_requests@[i], post_id, applicant));
        assert(0 <= k < self.help_requests@.len() && keyed(
            self.help_requests@[k],
            post_id,
            applicant,
        ));
        assert(k == i) by {
            if k < i {
                assert(!keyed(
                    self.help_requests@[k],
                    self.help_requests@[i].post_id,
                    self.help_requests@[i].applicant,
                ));
            } else if i < k {
                assert(!keyed(
                    self.help_requests@[i],
                    self.help_requests@[k].post_id,
                    self.help_requests@[k].applicant,
                ));
            }
        }
    }

    /// Replacing the post at a place by one of the same id changes what is
    /// found under that id and under no other.
    pub proof fn lemma_replaced_post(self, after: Registry, i: int, id: u64)
        requires
            self.well_formed(),
            after.well_formed(),
            0 <= i < self.posts@.len(),
            after.posts@ == self.posts@.update(i, after.posts@[i]),
            after.posts@[i].id == self.posts@[i].id,
        ensures
            after.post(id) == if id == self.posts@[i].id {
                Some(after.posts@[i])
            } else {
                self.post(id)
            },
    {
        if id == self.posts@[i].id {
            after.lemma_post_at(i);
        } else {
            match self.post_index(id) {
                Some(k) => {
                    assert(after.posts@[k] == self.posts@[k]);
                    self.lemma_post_at(k);
                    after.lemma_post_at(k);
                },
                None => {
                    assert forall|k: int| 0 <= k < after.posts@.len() implies (
                    #[trigger] after.posts@[k]).id != id by {
                        if k != i {
                            assert(self.posts@[k].id != id);
                        }
                    }
                },
            }
        }
    }

    /// Adding a post under a fresh id changes what is found under that id
    /// and under no other.
    pub proof fn lemma_added_post(self, after: Registry, post: Post, id: u64)
        requires
            self.well_formed(),
            after.well_formed(),
            self.post(post.id).is_none(),
            after.posts@ == self.posts@.push(post),
        ensures
            after.post(id) == if id == post.id {
                Some(post)
            } else {
                self.post(id)
            },
    {
        let n = self.posts@.len() as int;
        if id == post.id {
            after.lemma_post_at(n);
        } else {
            match self.post_index(id) {
                Some(k) => {
                    assert(after.posts@[k] == self.posts@[k]);
                    self.lemma_post_at(k);
                    after.lemma_post_at(k);
                },
                None => {
                    assert forall|k: int| 0 <= k < after.posts@.len() implies (
                    #[trigger] after.posts@[k]).id != id by {
                        if k != n {
                            assert(self.posts@[k].id != id);
                        }
                    }
                },
            }
        }
    }

    /// Replacing the request at a place by one of the same key changes what
    /// is found under that key and under no other.
    pub proof fn lemma_replaced_help_request(
        self,
        after: Registry,
        i: int,
        post_id: u64,
        applicant: Identity,
    )
        requires
            self.well_formed(),
            after.well_formed(),
            0 <= i < self.help_requests@.len(),
            after.help_requests@ == self.help_requests@.update(i, after.help_requests@[i]),
            after.help_requests@[i].post_id == self.help_requests@[i].post_id,
            after.help_requests@[i].applicant == self.help_requests@[i].applicant,
        ensures
            after.help_request(post_id, applicant) == if keyed(
                self.help_requests@[i],
                post_id,
                applicant,
            ) {
                Some(after.help_requests@[i])
            } else {
                self.help_request(post_id, applicant)
            },
    {
        if keyed(self.help_requests@[i], post_id, applicant) {
            after.lemma_help_request_at(i);
        } else {
            match self.help_request_index(post_id, applicant) {
                Some(k) => {
                    assert(after.help_requests@[k] == self.help_requests@[k]);
                    self.lemma_help_request_at(k);
                    after.lemma_help_request_at(k);
                },
                None => {
                    assert forall|k: int| 0 <= k < after.help_requests@.len() implies !keyed(
                        #[trigger] after.help_requests@[k],
                        post_id,
                        applicant,
                    ) by {
                        if k != i {
                            assert(!keyed(self.help_requests@[k], post_id, applicant));
                        }
                    }
                },
            }
        }
    }

    /// Adding a request under a fresh key changes what is found under that
    /// key and under no other.
    pub proof fn lemma_added_help_request(
        self,
        after: Registry,
        request: HelpRequest,
        post_id: u64,
        applicant: Identity,
    )
        requires
            self.well_formed(),
            after.well_formed(),
            self.help_request(request.post_id, request.applicant).is_none(),
            after.help_requests@ == self.help_requests@.push(request),
        ensures
            after.help_request(post_id, applicant) == if keyed(request, post_id, applicant) {
                Some(request)
            } else {
                self.help_request(post_id, applicant)
            },
    {
        let n = self.help_requests@.len() as int;
        if keyed(request, post_id, applicant) {
            after.lemma_help_request_at(n);
        } else {
            match self.help_request_index(post_id, applicant) {
                Some(k) => {
                    assert(after.help_requests@[k] == self.help_requests@[k]);
                    self.lemma_help_request_at(k);
                    after.lemma_help_request_at(k);
                },
                None => {
                    assert forall|k: int| 0 <= k < after.help_requests@.len() implies !keyed(
                        #[trigger] after.help_requests@[k],
                        post_id,
                        applicant,
                    ) by {
                        if k != n {
                            assert(!keyed(self.help_requests@[k], post_id, applicant));
                        }
                    }
                },
            }
        }
    }

    /// The empty store.
    pub fn new() -> (registry: Registry)
        ensures
            registry.well_formed(),
            registry.posts@.len() == 0,
            registry.help_requests@.len() == 0,
    {
        Registry { posts: Vec::new(), help_requests: Vec::new() }
    }

    /// Finds the place of the post `id`.
    pub fn find_post(&self, id: u64) -> (found: Option<usize>)
        requires
            self.well_formed(),
        ensures
            match found {
                Some(i) => self.post_index(id) == Some(i as int) && i < self.posts@.len(),
                None => self.post_index(id).is_none(),
            },
    {
        let mut i: usize = 0;
        while i < self.posts.len()
            invariant
                i <= self.posts@.len(),
                self.well_formed(),
                forall|j: int| 0 <= j < i ==> (#[trigger] self.posts@[j]).id != id,
            decreases self.posts@.len() - i,
        {
            if self.posts[i].id == id {
                proof {
                    self.lemma_post_at(i as int);
                }
                return Some(i);
            }
            i += 1;
        }
        None
    }

    /// Finds the place of the request of `applicant` to the post `post_id`.
    pub fn find_help_request(&self, post_id: u64, applicant: &Identity) -> (found: Option<usize>)
        requires
            self.well_formed(),
        ensures
            match found {
                Some(i) => self.help_request_index(post_id, *applicant) == Some(i as int) && i
                    < self.help_requests@.len(),
                None => self.help_request_index(post_id, *applicant).is_none(),
            },
    {
        let mut i: usize = 0;
        while i < self.help_requests.len()
            invariant
                i <= self.help_requests@.len(),
                self.well_formed(),
                forall|j: int|
                    0 <= j < i ==> !keyed(#[trigger] self.help_requests@[j], post_id, *applicant),
            decreases self.help_requests@.len() - i,
        {
            if self.help_requests[i].post_id == post_id && self.help_requests[i].applicant.same_as(
                applicant,
            ) {
                proof {
                    self.lemma_help_request_at(i as int);
                }
                return Some(i);
            }
            i += 1;
        }
        None
    }

    /// Files a post under its id unless the id is taken; a taken id is
    /// refused and the store stays as it was.
    pub fn insert_post(&mut self, post: Post) -> (result: Result<(), CoduetError>)
        requires
            old(self).well_formed(),
        ensures
            final(self).well_formed(),
            final(self).help_requests@ == old(self).help_requests@,
            match old(self).post(post.id) {
                Some(_) => result == Err::<(), CoduetError>(CoduetError::InvalidPostId) && final(self).posts@ == old(self).posts@,
                None => result.is_ok() && final(self).posts@ == old(self).posts@.push(post)
                    && final(self).post(post.id) == Some(post),
            },
            forall|id: u64|
                id != post.id ==> #[trigger] final(self).post(id) == old(self).post(id),
    {
        if self.find_post(post.id).is_some() {
            return Err(CoduetError::InvalidPostId);
        }
        let ghost filed = post;
        self.posts.push(post);
        proof {
            let before = old(self).posts@;
            let after = self.posts@;
            assert forall|a: int, b: int| 0 <= a < b < after.len() implies (#[trigger] after[a]).id
                != (#[trigger] after[b]).id by {
                if b == before.len() {
                    assert(before[a].id != filed.id);
                } else {
                    assert(before[a].id != before[b].id);
                }
            }
            self.lemma_post_at(before.len() as int);
            assert forall|id: u64| id != filed.id implies #[trigger] self.post(id) == old(self).post(id) by {
                old(self).lemma_added_post(*self, filed, id);
            }
        }
        Ok(())
    }

    /// Files a request under its post and applicant unless that applicant
    /// has a request to that post; a second one is refused and the store
    /// stays as it was.
    pub fn insert_help_request(&mut self, request: HelpRequest) -> (result: Result<
        (),
        CoduetError,
    >)
        requires
            old(self).well_formed(),
        ensures
            final(self).well_formed(),
            final(self).posts@ == old(self).posts@,
            match old(self).help_request(request.post_id, request.applicant) {
                Some(_) => result == Err::<(), CoduetError>(CoduetError::AlreadyApplied) && final(self).help_requests@ == old(self).help_requests@,
                None => result.is_ok() && final(self).help_requests@ == old(self).help_requests@.push(request) && final(self).help_request(
                    request.post_id,
                    request.applicant,
                ) == Some(request),
            },
            forall|p: u64, a: Identity|
                !keyed(request, p, a) ==> #[trigger] final(self).help_request(p, a) == old(self).help_request(p, a),
    {
        if self.find_help_request(request.post_id, &request.applicant).is_some() {
            return Err(CoduetError::AlreadyApplied);
        }
        self.help_requests.push(request);
        proof {
            let before = old(self).help_requests@;
            let after = self.help_requests@;
            assert forall|a: int, b: int| 0 <= a < b < after.len() implies !keyed(
                #[trigger] after[a],
                (#[trigger] after[b]).post_id,
                after[b].applicant,
            ) by {
                if b == before.len() {
                    assert(!keyed(before[a], request.post_id, request.applicant));
                } else {
                    assert(!keyed(before[a], before[b].post_id, before[b].applicant));
                }
            }
            self.lemma_help_request_at(before.len() as int);
            assert forall|p: u64, a: Identity| !keyed(request, p, a) implies (
            #[trigger] self.help_request(p, a)) == old(self).help_request(p, a) by {
                old(self).lemma_added_help_request(*self, request, p, a);
            }
        }
        Ok(())
    }

    /// Looks up the post `id`.
    pub fn get_post(&self, id: u64) -> (found: Option<&Post>)
        requires
            self.well_formed(),
        ensures
            match found {
                Some(post) => self.post(id) == Some(*post),
                None => self.post(id).is_none(),
            },
    {
        match self.find_post(id) {
            Some(i) => Some(&self.posts[i]),
            None => None,
        }
    }

    /// Looks up the request of `applicant` to the post `post_id`.
    pub fn get_help_request(&self, post_id: u64, applicant: &Identity) -> (found: Option<
        HelpRequest,
    >)
        requires
            self.well_formed(),
        ensures
            found == self.help_request(post_id, *applicant),
    {
        match self.find_help_request(post_id, applicant) {
            Some(i) => Some(self.help_requests[i]),
            None => None,
        }
    }
}

} // verus!
