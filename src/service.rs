use vstd::prelude::*;
use crate::error::{status_code_of, AppError};
use crate::ident::{all_drawn_from, IdGenerator};
use crate::store::{Link, LinkTable, DUPLICATE_KEY_MESSAGE, NO_ROW_MESSAGE};
use crate::validate::{normalized_url, validate_url};

verus! {

/// The address under which the service is reached.
pub const BASE_URL: &'static str = "https://mijikaku.shuttleapp.rs";

pub const STATUS_OK: u16 = 200;

pub const STATUS_FOUND: u16 = 302;

/// The body of a create request.
#[derive(Debug, Clone)]
pub struct Input {
    pub url: String,
}

/// A redirect answer: its status and the target it sends the client to.
#[derive(Debug, Clone)]
pub struct Redirect {
    pub status_code: u16,
    pub location: String,
}

/// The short link of `id` under `base`.
pub open spec fn short_url_of(base: Seq<char>, id: Seq<char>) -> Seq<char> {
    base + seq!['/'] + id
}

/// The status a create of `u` under the fresh identifier `id` answers with.
pub open spec fn create_status(t: Map<Seq<char>, Seq<char>>, u: Seq<char>, id: Seq<char>) -> u16 {
    match normalized_url(u) {
        None => status_code_of(AppError::URLParseError),
        Some(_) => if t.contains_key(id) {
            crate::error::STATUS_INTERNAL_SERVER_ERROR
        } else {
            STATUS_OK
        },
    }
}

/// The table after a create of `u` under the identifier `id`.
pub open spec fn table_after_create(
    t: Map<Seq<char>, Seq<char>>,
    u: Seq<char>,
    id: Seq<char>,
) -> Map<Seq<char>, Seq<char>> {
    match normalized_url(u) {
        Some(n) => if t.contains_key(id) {
            t
        } else {
            t.insert(id, n)
        },
        None => t,
    }
}

/// Where a redirect of `id` leads, if anywhere.
pub open spec fn redirect_target(t: Map<Seq<char>, Seq<char>>, id: Seq<char>) -> Option<Seq<char>> {
    if t.contains_key(id) {
        Some(t[id])
    } else {
        None
    }
}

/// The status a redirect of `id` answers with.
pub open spec fn redirect_status(t: Map<Seq<char>, Seq<char>>, id: Seq<char>) -> u16 {
    if t.contains_key(id) {
        STATUS_FOUND
    } else {
        crate::error::STATUS_INTERNAL_SERVER_ERROR
    }
}

/// The link to store for a create request under the identifier `id`: the
/// normalized URL, or `URLParseError` where the input is no absolute URL.
pub fn prepare_link(input: &Input, id: String) -> (r: Result<Link, AppError>)
    ensures
        r is Ok <==> normalized_url(input.url@) is Some,
        r is Ok ==> r->Ok_0.id == id && r->Ok_0.url@ == normalized_url(input.url@)->Some_0,
        r is Err ==> r->Err_0 is URLParseError,
{
    let url = validate_url(input.url.as_str())?;
    Ok(Link { id, url })
}

/// The short link of `id` under `base`.
pub fn short_url(base: &str, id: &str) -> (r: String)
    ensures
        r@ == short_url_of(base@, id@),
{
    let r = String::from_str(base).concat("/").concat(id);
    proof {
        reveal_strlit("/");
    }
    assert(r@ =~= short_url_of(base@, id@));
    r
}

/// The answer to a redirect, given what the lookup of its identifier found.
pub fn redirect_to(found: Result<String, AppError>) -> (r: Result<Redirect, AppError>)
    ensures
        r is Ok <==> found is Ok,
        r is Ok ==> r->Ok_0.location == found->Ok_0 && r->Ok_0.status_code == STATUS_FOUND,
        r is Err ==> r->Err_0 == found->Err_0,
{
    match found {
        Ok(location) => Ok(Redirect { status_code: STATUS_FOUND, location }),
        Err(e) => Err(e),
    }
}

/// Creates a link for `input` under the identifier `id` and returns its short
/// link under `base`.
pub fn shorten_with_id(table: &mut LinkTable, base: &str, input: &Input, id: String) -> (r: Result<
    String,
    AppError,
>)
    requires
        old(table).wf(),
    ensures
        final(table).wf(),
        final(table)@ == table_after_create(old(table)@, input.url@, id@),
        r is Ok <==> create_status(old(table)@, input.url@, id@) == STATUS_OK,
        r is Ok ==> r->Ok_0@ == short_url_of(base@, id@),
        r is Err ==> status_code_of(r->Err_0) == create_status(old(table)@, input.url@, id@),
        normalized_url(input.url@) is None ==> r is Err && r->Err_0 is URLParseError,
        normalized_url(input.url@) is Some && old(table)@.contains_key(id@) ==> r is Err
            && r->Err_0 is DatabaseError && r->Err_0->DatabaseError_0@ == DUPLICATE_KEY_MESSAGE@,
{
    let link = prepare_link(input, id)?;
    let short = short_url(base, link.id.as_str());
    table.insert(link)?;
    Ok(short)
}

/// Creates a link for `input` under a fresh identifier from `generator` and
/// returns its short link under `base`. Fails with `URLParseError` where the
/// input is no absolute URL, and with `DatabaseError` where the identifier
/// drawn is taken; the table is then left as it was.
pub fn shorten(table: &mut LinkTable, generator: &IdGenerator, base: &str, input: &Input) -> (r:
    Result<String, AppError>)
    requires
        old(table).wf(),
        generator.wf(),
    ensures
        final(table).wf(),
        normalized_url(input.url@) is None ==> r is Err && r->Err_0 is URLParseError,
        r is Err ==> final(table)@ == old(table)@,
        r is Err && normalized_url(input.url@) is Some ==> r->Err_0 is DatabaseError,
        r is Err && normalized_url(input.url@) is Some ==> exists|id: Seq<char>|
            {
                &&& id.len() == generator.length()
                &&& all_drawn_from(id, generator.alphabet())
                &&& #[trigger] old(table)@.contains_key(id)
            },
        r is Ok ==> exists|id: Seq<char>|
            {
                &&& id.len() == generator.length()
                &&& all_drawn_from(id, generator.alphabet())
                &&& !old(table)@.contains_key(id)
                &&& final(table)@ == old(table)@.insert(id, normalized_url(input.url@)->Some_0)
                &&& r->Ok_0@ == #[trigger] short_url_of(base@, id)
            },
{
    let id = generator.generate();
    let ghost drawn = id@;
    let r = shorten_with_id(table, base, input, id);
    assert(r is Ok ==> r->Ok_0@ == short_url_of(base@, drawn));
    assert(r is Err && normalized_url(input.url@) is Some ==> old(table)@.contains_key(drawn));
    r
}

/// Answers a redirect of `id` from `table`: the stored URL with status 302, or
/// `DatabaseError` where no link has that identifier. Reading leaves the
/// table as it is, so the answer depends on the table and `id` alone.
pub fn redirect(table: &LinkTable, id: &str) -> (r: Result<Redirect, AppError>)
    requires
        table.wf(),
    ensures
        r is Ok <==> redirect_target(table@, id@) is Some,
        r is Ok ==> r->Ok_0.location@ == redirect_target(table@, id@)->Some_0,
        r is Ok ==> r->Ok_0.status_code == redirect_status(table@, id@),
        r is Err ==> r->Err_0 is DatabaseError && r->Err_0->DatabaseError_0@ == NO_ROW_MESSAGE@,
        r is Err ==> status_code_of(r->Err_0) == redirect_status(table@, id@),
{
    redirect_to(table.lookup(id))
}

/// A link created for an absolute URL under a fresh identifier redirects to the
/// URL's normalized form.
pub proof fn lemma_create_then_redirect(t: Map<Seq<char>, Seq<char>>, u: Seq<char>, id: Seq<char>)
    requires
        normalized_url(u) is Some,
        !t.contains_key(id),
    ensures
        create_status(t, u, id) == STATUS_OK,
        redirect_status(table_after_create(t, u, id), id) == STATUS_FOUND,
        redirect_target(table_after_create(t, u, id), id) == normalized_url(u),
{
}

/// A create of a string that is no absolute URL answers 422 and writes nothing.
pub proof fn lemma_invalid_url_rejected(t: Map<Seq<char>, Seq<char>>, u: Seq<char>, id: Seq<char>)
    requires
        normalized_url(u) is None,
    ensures
        create_status(t, u, id) == crate::error::STATUS_UNPROCESSABLE_ENTITY,
        table_after_create(t, u, id) == t,
{
}

/// A redirect of an identifier that was never created fails with 500.
pub proof fn lemma_unknown_id_fails(t: Map<Seq<char>, Seq<char>>, id: Seq<char>)
    requires
        !t.contains_key(id),
    ensures
        redirect_target(t, id) is None,
        redirect_status(t, id) == crate::error::STATUS_INTERNAL_SERVER_ERROR,
{
}

/// Two creates of absolute URLs under distinct fresh identifiers both
/// succeed, in either order with the same resulting table, and each
/// identifier redirects to its own URL.
pub proof fn lemma_two_creates(
    t: Map<Seq<char>, Seq<char>>,
    u1: Seq<char>,
    id1: Seq<char>,
    u2: Seq<char>,
    id2: Seq<char>,
)
    requires
        normalized_url(u1) is Some,
        normalized_url(u2) is Some,
        id1 != id2,
        !t.contains_key(id1),
        !t.contains_key(id2),
    ensures
        create_status(t, u1, id1) == STATUS_OK,
        create_status(table_after_create(t, u1, id1), u2, id2) == STATUS_OK,
        create_status(t, u2, id2) == STATUS_OK,
        create_status(table_after_create(t, u2, id2), u1, id1) == STATUS_OK,
        table_after_create(table_after_create(t, u1, id1), u2, id2) == table_after_create(
            table_after_create(t, u2, id2),
            u1,
            id1,
        ),
        redirect_target(table_after_create(table_after_create(t, u1, id1), u2, id2), id1)
            == normalized_url(u1),
        redirect_target(table_after_create(table_after_create(t, u1, id1), u2, id2), id2)
            == normalized_url(u2),
{
    let n1 = normalized_url(u1)->Some_0;
    let n2 = normalized_url(u2)->Some_0;
    assert(t.insert(id1, n1).insert(id2, n2) =~= t.insert(id2, n2).insert(id1, n1));
}

} // verus!
