//! Saving items into a user's collection: the decision taken for a save
//! request, and the storage operations it asks for, with their laws.
use vstd::prelude::*;

use crate::auth::{TokenClaims, UserId};
use crate::post::{
    content_hash_of, fields, parse_i64_of, record_of, record_view, to_record, Post,
    RecordView, SavedPostRecord, ValidationError,
};
use crate::render::PostFields;
use crate::text::decimal_int;

verus! {

/// The writes that saving an item asks of storage: insert the record unless
/// its hash is already stored, then add its post id to the user's collection.
#[derive(Debug, Clone, PartialEq, Eq)]
pub struct SavePlan {
    pub user: UserId,
    pub record: SavedPostRecord,
}

/// What a save request leads to.
#[derive(Debug, Clone, PartialEq, Eq)]
pub enum SaveStep {
    /// No verified identity came with the request.
    Unauthorized,
    /// The item's id or timestamp is not an integer.
    Invalid(ValidationError),
    /// The item is to be stored and added to the user's collection.
    Persist(SavePlan),
}

/// Which of the two writes of a save failed.
#[derive(Debug, Clone, Copy, PartialEq, Eq, Structural)]
pub enum StorageFailure {
    RecordWrite,
    CollectionWrite,
}

/// Decides a save request: without an identity it is unauthorized; with one,
/// an item whose numbers are integers is to be persisted for that user.
pub fn plan_save(user: Option<TokenClaims>, post: &Post) -> (r: SaveStep)
    ensures
        user is None ==> r == SaveStep::Unauthorized,
        user is Some && parse_i64_of(post.id@) is None ==> r == SaveStep::Invalid(
            ValidationError::InvalidId,
        ),
        user is Some && parse_i64_of(post.id@) is Some && parse_i64_of(post.timestamp@) is None
            ==> r == SaveStep::Invalid(ValidationError::InvalidTimestamp),
        user is Some && record_of(*post) is Some ==> (r matches SaveStep::Persist(plan) && plan.user
            == user.unwrap().id && Some(record_view(plan.record)) == record_of(*post)),
{
    match user {
        None => SaveStep::Unauthorized,
        Some(c) => match to_record(post) {
            Ok(record) => SaveStep::Persist(SavePlan { user: c.id, record }),
            Err(e) => SaveStep::Invalid(e),
        },
    }
}

/// The fragment that replaces the save button once an item is saved.
pub const SAVED_BUTTON: &'static str = "<button id='save-btn' type='submit' class='rounded-md bg-primary px-3.5 py-2.5 text-sm font-semibold text-white shadow-lg'>Saved</button>";

/// The next thing a save does, given how its writes went so far.
#[derive(Debug, PartialEq, Eq)]
pub enum SaveAction {
    /// Insert the record, ignoring a conflict on its hash.
    WriteRecord,
    /// Add the post id to the user's collection.
    AppendToCollection,
    /// Answer: the saved button, or the write that failed.
    Reply(Result<String, StorageFailure>),
}

/// The next step of a persisted save. `record_written` and
/// `collection_updated` are `None` until the write has been tried. The
/// record is written first; the collection is touched only once the record
/// is stored, so a failed record write never leaves a reference to a missing
/// record. Each failure is answered as its own write.
pub fn next_save_action(record_written: Option<bool>, collection_updated: Option<bool>) -> (r:
    SaveAction)
    ensures
        record_written is None ==> r == SaveAction::WriteRecord,
        record_written == Some(false) ==> r == SaveAction::Reply(
            Err(StorageFailure::RecordWrite),
        ),
        record_written == Some(true) && collection_updated is None ==> r
            == SaveAction::AppendToCollection,
        record_written == Some(true) && collection_updated == Some(false) ==> r
            == SaveAction::Reply(Err(StorageFailure::CollectionWrite)),
        record_written == Some(true) && collection_updated == Some(true) ==> (r matches SaveAction::Reply(Ok(s)) && s@ == SAVED_BUTTON@),
        r is AppendToCollection ==> record_written == Some(true),
{
    match record_written {
        None => SaveAction::WriteRecord,
        Some(false) => SaveAction::Reply(Err(StorageFailure::RecordWrite)),
        Some(true) => match collection_updated {
            None => SaveAction::AppendToCollection,
            Some(false) => SaveAction::Reply(Err(StorageFailure::CollectionWrite)),
            Some(true) => SaveAction::Reply(Ok(SAVED_BUTTON.to_owned())),
        },
    }
}

/// What a request for the saved listing leads to.
#[derive(Debug, Clone, Copy, PartialEq, Eq, Structural)]
pub enum ListStep {
    /// No verified identity came with the request.
    Unauthorized,
    /// Read the records in this user's collection.
    Read(UserId),
}

/// Decides a listing request: without an identity it is unauthorized, else
/// the records of that user's collection are read.
pub fn plan_listing(user: Option<TokenClaims>) -> (r: ListStep)
    ensures
        user is None ==> r == ListStep::Unauthorized,
        user matches Some(c) ==> r == ListStep::Read(c.id),
{
    match user {
        None => ListStep::Unauthorized,
        Some(c) => ListStep::Read(c.id),
    }
}

/// Stored state: the records by content hash, and each user's collection of
/// post ids.
pub type StoreView = (Map<Seq<char>, RecordView>, Map<u128, Set<i64>>);

/// Insert a record, doing nothing when its hash is already stored.
pub open spec fn insert_ignore(s: StoreView, rec: RecordView) -> StoreView {
    if s.0.contains_key(rec.0) {
        s
    } else {
        (s.0.insert(rec.0, rec), s.1)
    }
}

/// The collection of a user; empty for a user with none.
pub open spec fn collection(s: StoreView, user: u128) -> Set<i64> {
    if s.1.contains_key(user) {
        s.1[user]
    } else {
        Set::empty()
    }
}

/// Add a post id to a user's collection, as a set union.
pub open spec fn append_saved(s: StoreView, user: u128, post_id: i64) -> StoreView {
    (s.0, s.1.insert(user, collection(s, user).insert(post_id)))
}

/// The state after one save of a record for a user: both writes of its plan.
pub open spec fn apply_save(s: StoreView, user: u128, rec: RecordView) -> StoreView {
    append_saved(insert_ignore(s, rec), user, rec.1)
}

/// The records listed for a user: those whose post id is in the collection.
pub open spec fn listed(s: StoreView, user: u128) -> Set<RecordView> {
    Set::new(
        |rec: RecordView|
            s.0.contains_key(rec.0) && s.0[rec.0] == rec && collection(s, user).contains(rec.1),
    )
}

/// The item that a stored record lists as.
pub open spec fn listed_fields(rec: RecordView) -> PostFields {
    (decimal_int(rec.1 as int), rec.2, rec.4, rec.3, decimal_int(rec.5 as int))
}

/// Items with the same fields have the same content hash, and saving them
/// writes the same record.
pub proof fn lemma_content_hash_deterministic(a: Post, b: Post)
    requires
        fields(a) == fields(b),
    ensures
        content_hash_of(a) == content_hash_of(b),
        record_of(a) == record_of(b),
{
}

/// Saving the same record for the same user twice leaves storage as one save
/// does: one record under its hash, and the post id once in the collection.
pub proof fn lemma_save_idempotent(s: StoreView, user: u128, rec: RecordView)
    ensures
        apply_save(apply_save(s, user, rec), user, rec) == apply_save(s, user, rec),
        apply_save(s, user, rec).0.contains_key(rec.0),
        collection(apply_save(s, user, rec), user).contains(rec.1),
{
    let once = apply_save(s, user, rec);
    assert(collection(once, user) == collection(s, user).insert(rec.1));
    assert(collection(once, user).insert(rec.1) =~= collection(once, user));
    assert(once.1.insert(user, collection(once, user).insert(rec.1)) =~= once.1);
}

/// Two saves of one record for one user, each inserting before it appends,
/// end in the state of a single save whichever way their writes interleave.
pub proof fn lemma_concurrent_saves(s: StoreView, user: u128, rec: RecordView)
    ensures
        append_saved(append_saved(insert_ignore(insert_ignore(s, rec), rec), user, rec.1), user, rec.1)
            == apply_save(s, user, rec),
        append_saved(insert_ignore(append_saved(insert_ignore(s, rec), user, rec.1), rec), user, rec.1)
            == apply_save(s, user, rec),
{
    let i1 = insert_ignore(s, rec);
    assert(insert_ignore(i1, rec) == i1);
    let a1 = append_saved(i1, user, rec.1);
    assert(insert_ignore(a1, rec) == a1);
    lemma_save_idempotent(s, user, rec);
}

/// After an item is saved for a user, the user's listing holds a record that
/// lists as that item. This needs the item's id and timestamp written as
/// `Display` writes integers, and no other record stored under its hash.
pub proof fn lemma_save_then_list(s: StoreView, user: u128, p: Post)
    requires
        record_of(p) is Some,
        decimal_int(parse_i64_of(p.id@).unwrap() as int) == p.id@,
        decimal_int(parse_i64_of(p.timestamp@).unwrap() as int) == p.timestamp@,
        s.0.contains_key(content_hash_of(p)) ==> Some(s.0[content_hash_of(p)]) == record_of(p),
    ensures
        listed(apply_save(s, user, record_of(p).unwrap()), user).contains(record_of(p).unwrap()),
        listed_fields(record_of(p).unwrap()) == fields(p),
{
    let rec = record_of(p).unwrap();
    let after = apply_save(s, user, rec);
    assert(collection(after, user).contains(rec.1));
    assert(after.0.contains_key(rec.0) && after.0[rec.0] == rec);
}

} // verus!
