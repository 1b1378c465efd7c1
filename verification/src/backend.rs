//! A stub backend: an in-process remote for contract tests.
//!
//! It keeps a journal of writes and answers requests the way the real
//! service's contract says it must: a read of a stored URL is a success
//! response carrying the stored body, a read of an unknown URL is a
//! not-found protocol response, a replace stores the body under the URL,
//! and a create is acknowledged without the stub interpreting the payload
//! (the codec that would give the payload meaning is external). Its model
//! is the map from URL to the last body stored there.

use vstd::prelude::*;
use crate::http::{
    HttpOutcome, HttpOutcomeView, HttpRequest, HttpVerb, spec_read_result,
};

verus! {

/// The map a journal of writes denotes: later entries override earlier
/// ones.
pub open spec fn journal_model(entries: Seq<(String, Vec<u8>)>) -> Map<Seq<char>, Seq<u8>>
    decreases entries.len(),
{
    if entries.len() == 0 {
        Map::empty()
    } else {
        journal_model(entries.drop_last()).insert(entries.last().0@, entries.last().1@)
    }
}

/// What a journal holds for a URL: the body of the last entry under it.
pub open spec fn journal_lookup(entries: Seq<(String, Vec<u8>)>, url: Seq<char>) -> Option<
    Seq<u8>,
>
    decreases entries.len(),
{
    if entries.len() == 0 {
        None
    } else if entries.last().0@ == url {
        Some(entries.last().1@)
    } else {
        journal_lookup(entries.drop_last(), url)
    }
}

/// Looking a URL up in a journal agrees with its map model.
pub proof fn lemma_journal_lookup_models(entries: Seq<(String, Vec<u8>)>, url: Seq<char>)
    ensures
        journal_model(entries).contains_key(url) <==> journal_lookup(entries, url) is Some,
        journal_lookup(entries, url) matches Some(body) ==> journal_model(entries)[url] == body,
    decreases entries.len(),
{
    if entries.len() > 0 {
        lemma_journal_lookup_models(entries.drop_last(), url);
    }
}

/// How the stub answers a read of `url` when its state is `model`: the
/// stored body under a success status, or a bodyless not-found response.
pub open spec fn spec_stub_get(model: Map<Seq<char>, Seq<u8>>, url: Seq<char>) -> HttpOutcomeView {
    if model.contains_key(url) {
        HttpOutcomeView::Response { status: 200, body: model[url] }
    } else {
        HttpOutcomeView::Response { status: 404, body: Seq::empty() }
    }
}

/// The stub backend itself.
pub struct StubBackend {
    journal: Vec<(String, Vec<u8>)>,
}

impl StubBackend {
    /// The state of the stub: which body each URL currently holds.
    pub closed spec fn model(&self) -> Map<Seq<char>, Seq<u8>> {
        journal_model(self.journal@)
    }

    /// An empty backend: no resource exists yet.
    pub fn new() -> (backend: StubBackend)
        ensures
            backend.model() == Map::<Seq<char>, Seq<u8>>::empty(),
    {
        StubBackend { journal: Vec::new() }
    }

    /// Store `body` as the resource at `url`, creating or overwriting it.
    pub fn put(&mut self, url: &str, body: Vec<u8>)
        ensures
            final(self).model() == old(self).model().insert(url@, body@),
    {
        self.journal.push((url.to_owned(), body));
        proof {
            assert(self.journal@.drop_last() =~= old(self).journal@);
        }
    }

    /// The body stored at `url`, if any.
    pub fn get(&self, url: &str) -> (r: Option<&Vec<u8>>)
        ensures
            r matches Some(body) ==> self.model().contains_key(url@) && body@ == self.model().index(
                url@,
            ),
            r is None ==> !self.model().contains_key(url@),
    {
        let key = url.to_owned();
        let mut i = self.journal.len();
        proof {
            assert(self.journal@.subrange(0, self.journal@.len() as int) =~= self.journal@);
        }
        while i > 0
            invariant
                i <= self.journal@.len(),
                key@ == url@,
                journal_lookup(self.journal@, url@) == journal_lookup(
                    self.journal@.subrange(0, i as int),
                    url@,
                ),
            decreases i,
        {
            i = i - 1;
            let entry = &self.journal[i];
            if entry.0 == key {
                proof {
                    let ji = self.journal@[i as int];
                    let prefix = self.journal@.subrange(0, i as int + 1);
                    assert(prefix.last() == ji);
                    assert(journal_lookup(prefix, url@) == Some(ji.1@));
                    lemma_journal_lookup_models(self.journal@, url@);
                }
                return Some(&entry.1);
            }
            proof {
                assert(self.journal@.subrange(0, i as int + 1).drop_last() =~= self.journal@
                    .subrange(0, i as int));
            }
        }
        proof {
            assert(self.journal@.subrange(0, 0) =~= Seq::<(String, Vec<u8>)>::empty());
            lemma_journal_lookup_models(self.journal@, url@);
        }
        None
    }

    /// Answer one request. A read follows `spec_stub_get`; a replace stores
    /// the body and acknowledges with a bodyless success; a create is
    /// acknowledged with a bodyless success and stores nothing, since only
    /// the external codec could tell the stub where the payload belongs.
    pub fn handle(&mut self, request: &HttpRequest) -> (r: HttpOutcome)
        ensures
            request.verb == HttpVerb::Get ==> r@ == spec_stub_get(old(self).model(), request@.url)
                && final(self).model() == old(self).model(),
            request.verb == HttpVerb::Put ==> (r@ matches HttpOutcomeView::Response {
                status,
                body,
            } && status == 204 && body == Seq::<u8>::empty()) && final(self).model() == old(
                self,
            ).model().insert(request@.url, request@.body),
            request.verb == HttpVerb::Post ==> (r@ matches HttpOutcomeView::Response {
                status,
                body,
            } && status == 201 && body == Seq::<u8>::empty()) && final(self).model() == old(
                self,
            ).model(),
    {
        match request.verb {
            HttpVerb::Get => {
                match self.get(request.url.as_str()) {
                    Some(body) => {
                        let copy = copy_bytes(body);
                        HttpOutcome::Response { status: 200, body: copy }
                    },
                    None => HttpOutcome::Response { status: 404, body: Vec::new() },
                }
            },
            HttpVerb::Put => {
                let body = copy_bytes(&request.body);
                self.put(request.url.as_str(), body);
                HttpOutcome::Response { status: 204, body: Vec::new() }
            },
            HttpVerb::Post => HttpOutcome::Response { status: 201, body: Vec::new() },
        }
    }
}

/// An owned copy of a byte buffer.
fn copy_bytes(bytes: &Vec<u8>) -> (r: Vec<u8>)
    ensures
        r@ == bytes@,
{
    let mut copy: Vec<u8> = Vec::new();
    let mut i: usize = 0;
    while i < bytes.len()
        invariant
            i <= bytes@.len(),
            copy@ == bytes@.subrange(0, i as int),
        decreases bytes@.len() - i,
    {
        copy.push(bytes[i]);
        proof {
            assert(copy@ =~= bytes@.subrange(0, i as int + 1));
        }
        i = i + 1;
    }
    proof {
        assert(bytes@.subrange(0, bytes@.len() as int) =~= bytes@);
    }
    copy
}

/// Law: a replace followed immediately by a fetch of the same path round
/// trips. Whatever the backend held before, storing `payload` at `url` and
/// then reading `url` yields a response that the client interprets as
/// success carrying exactly `payload` — assuming no intervening writer.
pub proof fn lemma_replace_then_fetch_round_trips(
    model: Map<Seq<char>, Seq<u8>>,
    url: Seq<char>,
    payload: Seq<u8>,
)
    ensures
        spec_read_result(spec_stub_get(model.insert(url, payload), url)) == Ok::<
            Seq<u8>,
            crate::error::RemoteErrorView,
        >(payload),
{
}

} // verus!
