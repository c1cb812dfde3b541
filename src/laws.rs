use crate::create::{create_resumed, create_writes, CreateFlow, CreatePhase, Created};
use crate::delete::{delete_resumed, delete_writes, DeleteFlow, DeletePhase};
use crate::error::{kind_of, ErrorKind, ServiceError};
use crate::record::{encode, id_allowed, id_verdict, key_entry, record_set, url_entry};
use crate::store::{apply_all, fails, lookup, members, read_reply, runs, Reply, StoreModel, Step};
use crate::token::is_token;
use vstd::prelude::*;

verus! {

proof fn lemma_entries_distinct(id: Seq<char>)
    ensures
        url_entry(id) != key_entry(id),
{
    assert(url_entry(id)[0] != key_entry(id)[0]);
}

/// A create flow that generated its identifier ends, when it succeeds, with
/// an identifier of `TOKEN_LEN` alphanumeric characters.
pub proof fn lemma_generated_id_is_token(
    pre: CreateFlow,
    post: CreateFlow,
    reply: Reply,
    step: Step<Created>,
)
    requires
        pre.wf(),
        pre.generated,
        create_resumed(pre, post, reply, step),
        step matches Step::Finish(Ok(_)),
    ensures
        is_token(step->Finish_0->Ok_0.id@),
{
}

/// Once the writes of a create are carried out, the identifier resolves to
/// the URL, the edit key is stored beside it, and the record is listed.
pub proof fn lemma_create_then_resolve(s: StoreModel, id: Seq<char>, url: Seq<char>, key: Seq<char>)
    ensures
        ({
            let s1 = apply_all(s, create_writes(id, url, key));
            &&& lookup(s1, url_entry(id)) == Some(url)
            &&& lookup(s1, key_entry(id)) == Some(key)
            &&& members(s1, record_set()).contains(encode(id, url, key))
        }),
{
    lemma_entries_distinct(id);
    reveal_with_fuel(apply_all, 4);
}

/// A create flow that finds its identifier taken ends with a conflict and
/// asks for no write.
pub proof fn lemma_taken_id_conflicts(
    s: StoreModel,
    pre: CreateFlow,
    post: CreateFlow,
    reply: Reply,
    step: Step<Created>,
)
    requires
        pre.phase == CreatePhase::ProbeId,
        lookup(s, url_entry(pre.id@)) is Some,
        read_reply(s, url_entry(pre.id@), reply),
        create_resumed(pre, post, reply, step),
    ensures
        post.phase == CreatePhase::Finished,
        fails(step, ServiceError::IdInUse),
        kind_of(ServiceError::IdInUse) == ErrorKind::Conflict,
{
}

/// An identifier that names a route or holds the separator is refused as a
/// bad request.
pub proof fn lemma_refused_id_is_bad_request(id: Seq<char>)
    requires
        !id_allowed(id),
    ensures
        id_verdict(id) matches Err(e) && kind_of(e) == ErrorKind::BadRequest,
{
}

/// A delete flow that reads back the edit key it was given goes on to
/// remove the record.
pub proof fn lemma_matching_key_removes(
    s: StoreModel,
    pre: DeleteFlow,
    post: DeleteFlow,
    reply: Reply,
    step: Step<()>,
)
    requires
        pre.phase == DeletePhase::ProbeKey,
        lookup(s, key_entry(pre.id@)) == Some(pre.key@),
        read_reply(s, key_entry(pre.id@), reply),
        delete_resumed(pre, post, reply, step),
    ensures
        post.phase == DeletePhase::DropKey,
        runs(step, delete_writes(pre.id@, pre.url@, pre.key@)[0]),
{
}

/// Creating a record and then removing it with the key it was created with
/// leaves no entry under its identifier, no edit key, and no listed member.
pub proof fn lemma_create_delete_round_trip(
    s: StoreModel,
    id: Seq<char>,
    url: Seq<char>,
    key: Seq<char>,
)
    ensures
        ({
            let s1 = apply_all(s, create_writes(id, url, key));
            let s2 = apply_all(s1, delete_writes(id, url, key));
            &&& lookup(s1, url_entry(id)) == Some(url)
            &&& lookup(s1, key_entry(id)) == Some(key)
            &&& lookup(s2, url_entry(id)) is None
            &&& lookup(s2, key_entry(id)) is None
            &&& !members(s2, record_set()).contains(encode(id, url, key))
        }),
{
    lemma_create_then_resolve(s, id, url, key);
    lemma_entries_distinct(id);
    reveal_with_fuel(apply_all, 4);
}

/// Once the removals of a delete are carried out, a second delete of the
/// same identifier ends with `UnknownId`.
pub proof fn lemma_second_delete_not_found(
    s: StoreModel,
    url: Seq<char>,
    key: Seq<char>,
    pre: DeleteFlow,
    post: DeleteFlow,
    reply: Reply,
    step: Step<()>,
)
    requires
        pre.phase == DeletePhase::ProbeUrl,
        read_reply(
            apply_all(s, delete_writes(pre.id@, url, key)),
            url_entry(pre.id@),
            reply,
        ),
        delete_resumed(pre, post, reply, step),
    ensures
        post.phase == DeletePhase::Finished,
        fails(step, ServiceError::UnknownId),
{
    lemma_entries_distinct(pre.id@);
    reveal_with_fuel(apply_all, 4);
}

} // verus!
