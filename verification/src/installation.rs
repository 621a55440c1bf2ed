//! The installation id: found in the key-value store, migrated from the key it
//! used to live under, or made up on the first start.
//!
//! The store is read and written by the caller. [`start`] gives the first
//! request; each reply goes to [`installation_id`], which gives the next request
//! or the outcome.

use vstd::prelude::*;

verus! {

/// The key that holds the installation id.
pub const INSTALLATION_KEY: &'static str = "installation_id";

/// The key that held the installation id in earlier releases.
pub const LEGACY_KEY: &'static str = "device_id";

/// What the lookup is waiting for.
#[derive(Debug, PartialEq, Eq)]
pub enum Lookup {
    ReadingLegacy,
    WritingMigrated { id: String },
    DeletingLegacy { id: String },
    ReadingCurrent,
    WritingFresh { id: String },
    Finished,
}

/// An operation of the key-value store.
#[derive(Debug, PartialEq, Eq)]
pub enum StoreRequest {
    Read { key: String },
    Write { key: String, value: String },
    Delete { key: String },
}

/// What the store answered: a read gives the value, if any; a write or a delete
/// gives only success. A failure carries the store's error message.
#[derive(Debug, PartialEq, Eq)]
pub enum StoreReply {
    Read(Result<Option<String>, String>),
    Changed(Result<(), String>),
}

/// What to do next: ask the store, or return. The flag of a successful return
/// says whether the id was already known to the store.
#[derive(Debug, PartialEq, Eq)]
pub enum LookupStep {
    Ask(StoreRequest),
    Return(Result<(String, bool), String>),
}

pub enum LookupView {
    ReadingLegacy,
    WritingMigrated { id: Seq<char> },
    DeletingLegacy { id: Seq<char> },
    ReadingCurrent,
    WritingFresh { id: Seq<char> },
    Finished,
}

pub enum StoreRequestView {
    Read { key: Seq<char> },
    Write { key: Seq<char>, value: Seq<char> },
    Delete { key: Seq<char> },
}

pub enum StoreReplyView {
    Read(Result<Option<Seq<char>>, Seq<char>>),
    Changed(Result<(), Seq<char>>),
}

pub enum LookupStepView {
    Ask(StoreRequestView),
    Return(Result<(Seq<char>, bool), Seq<char>>),
}

impl View for Lookup {
    type V = LookupView;

    open spec fn view(&self) -> LookupView {
        match self {
            Lookup::ReadingLegacy => LookupView::ReadingLegacy,
            Lookup::WritingMigrated { id } => LookupView::WritingMigrated { id: id@ },
            Lookup::DeletingLegacy { id } => LookupView::DeletingLegacy { id: id@ },
            Lookup::ReadingCurrent => LookupView::ReadingCurrent,
            Lookup::WritingFresh { id } => LookupView::WritingFresh { id: id@ },
            Lookup::Finished => LookupView::Finished,
        }
    }
}

impl View for StoreRequest {
    type V = StoreRequestView;

    open spec fn view(&self) -> StoreRequestView {
        match self {
            StoreRequest::Read { key } => StoreRequestView::Read { key: key@ },
            StoreRequest::Write { key, value } => StoreRequestView::Write {
                key: key@,
                value: value@,
            },
            StoreRequest::Delete { key } => StoreRequestView::Delete { key: key@ },
        }
    }
}

impl View for StoreReply {
    type V = StoreReplyView;

    open spec fn view(&self) -> StoreReplyView {
        match self {
            StoreReply::Read(Ok(Some(value))) => StoreReplyView::Read(Ok(Some(value@))),
            StoreReply::Read(Ok(None)) => StoreReplyView::Read(Ok(None)),
            StoreReply::Read(Err(error)) => StoreReplyView::Read(Err(error@)),
            StoreReply::Changed(Ok(_)) => StoreReplyView::Changed(Ok(())),
            StoreReply::Changed(Err(error)) => StoreReplyView::Changed(Err(error@)),
        }
    }
}

impl View for LookupStep {
    type V = LookupStepView;

    open spec fn view(&self) -> LookupStepView {
        match self {
            LookupStep::Ask(request) => LookupStepView::Ask(request@),
            LookupStep::Return(Ok((id, known))) => LookupStepView::Return(Ok((id@, *known))),
            LookupStep::Return(Err(error)) => LookupStepView::Return(Err(error@)),
        }
    }
}

/// A reply answers what the lookup is waiting for: a read is answered by a read,
/// a write or a delete by a change, and a finished lookup waits for nothing.
pub open spec fn answers(lookup: LookupView, reply: StoreReplyView) -> bool {
    match lookup {
        LookupView::ReadingLegacy | LookupView::ReadingCurrent => reply is Read,
        LookupView::Finished => false,
        _ => reply is Changed,
    }
}

/// Asking for `value` to be stored under the current key.
pub open spec fn store_current(value: Seq<char>) -> LookupStepView {
    LookupStepView::Ask(StoreRequestView::Write { key: INSTALLATION_KEY@, value })
}

/// The state and the step that follow `reply`, where `fresh` is the id to use if
/// the store turns out to know none. A read that fails counts as one that found
/// nothing; a write or a delete that fails ends the lookup with its error.
pub open spec fn next(lookup: LookupView, reply: StoreReplyView, fresh: Seq<char>) -> (
    LookupView,
    LookupStepView,
) {
    match (lookup, reply) {
        (LookupView::ReadingLegacy, StoreReplyView::Read(Ok(Some(id)))) => (
            LookupView::WritingMigrated { id },
            store_current(id),
        ),
        (LookupView::ReadingLegacy, _) => (
            LookupView::ReadingCurrent,
            LookupStepView::Ask(StoreRequestView::Read { key: INSTALLATION_KEY@ }),
        ),
        (LookupView::ReadingCurrent, StoreReplyView::Read(Ok(Some(id)))) => (
            LookupView::Finished,
            LookupStepView::Return(Ok((id, true))),
        ),
        (LookupView::ReadingCurrent, _) => (
            LookupView::WritingFresh { id: fresh },
            store_current(fresh),
        ),
        (_, StoreReplyView::Changed(Err(error))) => (
            LookupView::Finished,
            LookupStepView::Return(Err(error)),
        ),
        (LookupView::WritingMigrated { id }, _) => (
            LookupView::DeletingLegacy { id },
            LookupStepView::Ask(StoreRequestView::Delete { key: LEGACY_KEY@ }),
        ),
        (LookupView::DeletingLegacy { id }, _) => (
            LookupView::Finished,
            LookupStepView::Return(Ok((id, true))),
        ),
        (LookupView::WritingFresh { id }, _) => (
            LookupView::Finished,
            LookupStepView::Return(Ok((id, false))),
        ),
        (LookupView::Finished, _) => (
            LookupView::Finished,
            LookupStepView::Return(Err(Seq::empty())),
        ),
    }
}

/// The first state and the first request: the legacy key is read before anything else.
pub open spec fn first() -> (LookupView, StoreRequestView) {
    (LookupView::ReadingLegacy, StoreRequestView::Read { key: LEGACY_KEY@ })
}

/// Starts a lookup.
pub fn start() -> (begun: (Lookup, StoreRequest))
    ensures
        (begun.0@, begun.1@) == first(),
{
    (Lookup::ReadingLegacy, StoreRequest::Read { key: LEGACY_KEY.to_owned() })
}

/// Takes the reply to the last request and gives what to do next, with `fresh`
/// for the id if neither key holds one.
pub fn advance(lookup: Lookup, reply: StoreReply, fresh: String) -> (stepped: (Lookup, LookupStep))
    requires
        answers(lookup@, reply@),
    ensures
        (stepped.0@, stepped.1@) == next(lookup@, reply@, fresh@),
{
    match lookup {
        Lookup::ReadingLegacy => match reply {
            StoreReply::Read(Ok(Some(id))) => {
                let request = StoreRequest::Write {
                    key: INSTALLATION_KEY.to_owned(),
                    value: id.clone(),
                };
                (Lookup::WritingMigrated { id }, LookupStep::Ask(request))
            },
            _ => {
                let request = StoreRequest::Read { key: INSTALLATION_KEY.to_owned() };
                (Lookup::ReadingCurrent, LookupStep::Ask(request))
            },
        },
        Lookup::ReadingCurrent => match reply {
            StoreReply::Read(Ok(Some(id))) => {
                (Lookup::Finished, LookupStep::Return(Ok((id, true))))
            },
            _ => {
                let request = StoreRequest::Write {
                    key: INSTALLATION_KEY.to_owned(),
                    value: fresh.clone(),
                };
                (Lookup::WritingFresh { id: fresh }, LookupStep::Ask(request))
            },
        },
        Lookup::WritingMigrated { id } => match reply {
            StoreReply::Changed(Err(error)) => (Lookup::Finished, LookupStep::Return(Err(error))),
            _ => {
                let request = StoreRequest::Delete { key: LEGACY_KEY.to_owned() };
                (Lookup::DeletingLegacy { id }, LookupStep::Ask(request))
            },
        },
        Lookup::DeletingLegacy { id } => match reply {
            StoreReply::Changed(Err(error)) => (Lookup::Finished, LookupStep::Return(Err(error))),
            _ => (Lookup::Finished, LookupStep::Return(Ok((id, true)))),
        },
        Lookup::WritingFresh { id } => match reply {
            StoreReply::Changed(Err(error)) => (Lookup::Finished, LookupStep::Return(Err(error))),
            _ => (Lookup::Finished, LookupStep::Return(Ok((id, false)))),
        },
        Lookup::Finished => (Lookup::Finished, LookupStep::Return(Err(String::new()))),
    }
}

/// A character of a lower-case hexadecimal number.
pub open spec fn is_lower_hex(c: char) -> bool {
    ('0' <= c && c <= '9') || ('a' <= c && c <= 'f')
}

/// The text of a random (version 4) UUID: 32 lower-case hexadecimal digits in
/// groups of 8, 4, 4, 4 and 12, joined by hyphens, with the version in the first
/// digit of the third group and the variant in the first of the fourth.
pub open spec fn is_random_uuid_text(text: Seq<char>) -> bool {
    &&& text.len() == 36
    &&& text[8] == '-' && text[13] == '-' && text[18] == '-' && text[23] == '-'
    &&& forall|i: int|
        0 <= i < 36 && i != 8 && i != 13 && i != 18 && i != 23 ==> is_lower_hex(#[trigger] text[i])
    &&& text[14] == '4'
    &&& (text[19] == '8' || text[19] == '9' || text[19] == 'a' || text[19] == 'b')
}

/// Calls `uuid::Uuid::new_v4` and turns what it gives into a `String` by the
/// `Display` of `Uuid`. Which UUID comes is up to the random number generator of
/// the system; claimed is only the form of the text. `new_v4` panics where that
/// generator fails.
#[verifier::external_body]
fn random_uuid_text() -> (text: String)
    ensures
        is_random_uuid_text(text@),
{
    uuid::Uuid::new_v4().to_string()
}

/// The lookup has come to the point where it needs an id that is new: the current
/// key was read, after the legacy key, and gave none.
pub open spec fn needs_fresh_id(lookup: LookupView, reply: StoreReplyView) -> bool {
    lookup is ReadingCurrent && !(reply matches StoreReplyView::Read(Ok(Some(_))))
}

/// Takes the reply to the last request and gives what to do next. Where neither
/// key holds an id, a random UUID becomes the id.
pub fn installation_id(lookup: Lookup, reply: StoreReply) -> (stepped: (Lookup, LookupStep))
    requires
        answers(lookup@, reply@),
    ensures
        needs_fresh_id(lookup@, reply@) ==> exists|fresh: Seq<char>|
            is_random_uuid_text(fresh) && (stepped.0@, stepped.1@) == #[trigger] next(
                lookup@,
                reply@,
                fresh,
            ),
        !needs_fresh_id(lookup@, reply@) ==> forall|fresh: Seq<char>|
            (stepped.0@, stepped.1@) == #[trigger] next(lookup@, reply@, fresh),
{
    let fresh = match (&lookup, &reply) {
        (Lookup::ReadingCurrent, StoreReply::Read(Ok(Some(_)))) => String::new(),
        (Lookup::ReadingCurrent, _) => random_uuid_text(),
        _ => String::new(),
    };
    advance(lookup, reply, fresh)
}

/// What the store holds: a value for each key in it.
pub type Store = Map<Seq<char>, Seq<char>>;

/// What becomes of the store and what it replies, where `faults` gives the error
/// of each request that fails. A request that fails changes nothing.
pub open spec fn serve(
    store: Store,
    request: StoreRequestView,
    faults: spec_fn(StoreRequestView) -> Option<Seq<char>>,
) -> (Store, StoreReplyView) {
    match (request, faults(request)) {
        (StoreRequestView::Read { key }, Some(error)) => (store, StoreReplyView::Read(Err(error))),
        (StoreRequestView::Read { key }, None) => (
            store,
            StoreReplyView::Read(
                Ok(
                    if store.contains_key(key) {
                        Some(store[key])
                    } else {
                        None
                    },
                ),
            ),
        ),
        (_, Some(error)) => (store, StoreReplyView::Changed(Err(error))),
        (StoreRequestView::Write { key, value }, None) => (
            store.insert(key, value),
            StoreReplyView::Changed(Ok(())),
        ),
        (StoreRequestView::Delete { key }, None) => (
            store.remove(key),
            StoreReplyView::Changed(Ok(())),
        ),
    }
}

/// How many requests a lookup can still make.
pub open spec fn requests_left(lookup: LookupView) -> nat {
    match lookup {
        LookupView::ReadingLegacy => 3,
        LookupView::WritingMigrated { .. } | LookupView::ReadingCurrent => 2,
        LookupView::DeletingLegacy { .. } | LookupView::WritingFresh { .. } => 1,
        LookupView::Finished => 0,
    }
}

/// Runs a lookup against the store from a state and its pending request to the
/// end: the store afterwards, and what the lookup returned.
pub open spec fn finish(
    lookup: LookupView,
    request: StoreRequestView,
    store: Store,
    faults: spec_fn(StoreRequestView) -> Option<Seq<char>>,
    fresh: Seq<char>,
) -> (Store, Result<(Seq<char>, bool), Seq<char>>)
    decreases requests_left(lookup),
{
    let (served, reply) = serve(store, request, faults);
    let (following, step) = next(lookup, reply, fresh);
    match step {
        LookupStepView::Return(result) => (served, result),
        LookupStepView::Ask(asked) => if requests_left(following) < requests_left(lookup) {
            finish(following, asked, served, faults, fresh)
        } else {
            (served, Err(Seq::empty()))
        },
    }
}

/// A whole lookup against the store.
pub open spec fn run(
    store: Store,
    faults: spec_fn(StoreRequestView) -> Option<Seq<char>>,
    fresh: Seq<char>,
) -> (Store, Result<(Seq<char>, bool), Seq<char>>) {
    finish(first().0, first().1, store, faults, fresh)
}

/// No request fails.
pub open spec fn reliable() -> spec_fn(StoreRequestView) -> Option<Seq<char>> {
    |request: StoreRequestView| None
}

/// The id that the store knows: the one under the legacy key if there is one, or
/// else the one under the current key.
pub open spec fn known_id(store: Store) -> Option<Seq<char>> {
    if store.contains_key(LEGACY_KEY@) {
        Some(store[LEGACY_KEY@])
    } else if store.contains_key(INSTALLATION_KEY@) {
        Some(store[INSTALLATION_KEY@])
    } else {
        None
    }
}

proof fn lemma_keys_differ()
    ensures
        LEGACY_KEY@ != INSTALLATION_KEY@,
{
    reveal_strlit("device_id");
    reveal_strlit("installation_id");
    assert(LEGACY_KEY@.len() != INSTALLATION_KEY@.len());
}

/// On a store that works, a lookup returns the id that the store knows, marked as
/// known, or else the fresh one, marked as new. Afterwards the id stands under
/// the current key, the legacy key is gone, and no other key has changed.
pub proof fn law_lookup_settles_the_id(store: Store, fresh: Seq<char>)
    ensures
        ({
            let id = known_id(store).unwrap_or(fresh);
            run(store, reliable(), fresh) == (
                store.remove(LEGACY_KEY@).insert(INSTALLATION_KEY@, id),
                Ok::<(Seq<char>, bool), Seq<char>>((id, known_id(store) is Some)),
            )
        }),
{
    lemma_keys_differ();
    reveal_with_fuel(finish, 4);
    let id = known_id(store).unwrap_or(fresh);
    assert(run(store, reliable(), fresh).0 =~= store.remove(LEGACY_KEY@).insert(
        INSTALLATION_KEY@,
        id,
    ));
}

/// A second lookup on a store that works returns the id of the first, marked as
/// known, whatever the fresh id would have been, and leaves the store as it is.
pub proof fn law_lookup_is_stable(store: Store, fresh: Seq<char>, later: Seq<char>)
    ensures
        ({
            let (settled, first_result) = run(store, reliable(), fresh);
            run(settled, reliable(), later) == (
                settled,
                Ok::<(Seq<char>, bool), Seq<char>>(((first_result->Ok_0).0, true)),
            )
        }),
{
    lemma_keys_differ();
    law_lookup_settles_the_id(store, fresh);
    let (settled, first_result) = run(store, reliable(), fresh);
    law_lookup_settles_the_id(settled, later);
    assert(settled.remove(LEGACY_KEY@).insert(INSTALLATION_KEY@, (first_result->Ok_0).0)
        =~= settled);
}

/// The id stands under the current key alone, cannot be read from there, and is
/// overwritten by another.
pub open spec fn overwrites_unread_id(
    store: Store,
    faults: spec_fn(StoreRequestView) -> Option<Seq<char>>,
    fresh: Seq<char>,
) -> bool {
    &&& !store.contains_key(LEGACY_KEY@)
    &&& faults(StoreRequestView::Read { key: INSTALLATION_KEY@ }) is Some
    &&& faults(StoreRequestView::Write { key: INSTALLATION_KEY@, value: fresh }) is None
    &&& store[INSTALLATION_KEY@] != fresh
}

/// Whatever requests fail, a lookup loses no id: the store still knows the id that
/// it knew before, so that a later lookup can return it. The one exception is an
/// id that cannot be read under the current key: it counts as not being there.
pub proof fn law_failures_keep_the_id(
    store: Store,
    faults: spec_fn(StoreRequestView) -> Option<Seq<char>>,
    fresh: Seq<char>,
)
    requires
        known_id(store) is Some,
    ensures
        known_id(run(store, faults, fresh).0) == known_id(store) <==> !overwrites_unread_id(
            store,
            faults,
            fresh,
        ),
{
    lemma_keys_differ();
    reveal_with_fuel(finish, 4);
}

/// The requests that a lookup makes, from a state and its pending request to the
/// end, in their order.
pub open spec fn requests_from(
    lookup: LookupView,
    request: StoreRequestView,
    store: Store,
    faults: spec_fn(StoreRequestView) -> Option<Seq<char>>,
    fresh: Seq<char>,
) -> Seq<StoreRequestView>
    decreases requests_left(lookup),
{
    let (served, reply) = serve(store, request, faults);
    let (following, step) = next(lookup, reply, fresh);
    match step {
        LookupStepView::Return(_) => seq![request],
        LookupStepView::Ask(asked) => if requests_left(following) < requests_left(lookup) {
            seq![request] + requests_from(following, asked, served, faults, fresh)
        } else {
            seq![request]
        },
    }
}

/// The requests of a whole lookup.
pub open spec fn requests_made(
    store: Store,
    faults: spec_fn(StoreRequestView) -> Option<Seq<char>>,
    fresh: Seq<char>,
) -> Seq<StoreRequestView> {
    requests_from(first().0, first().1, store, faults, fresh)
}

/// A write or a delete that fails.
pub open spec fn is_failed_change(
    request: StoreRequestView,
    faults: spec_fn(StoreRequestView) -> Option<Seq<char>>,
) -> bool {
    request !is Read && faults(request) is Some
}

/// What reading a key gives: nothing where the read fails.
pub open spec fn found(
    store: Store,
    faults: spec_fn(StoreRequestView) -> Option<Seq<char>>,
    key: Seq<char>,
) -> Option<Seq<char>> {
    if faults(StoreRequestView::Read { key }) is None && store.contains_key(key) {
        Some(store[key])
    } else {
        None
    }
}

/// The id that the two reads find: that of the legacy key comes first.
pub open spec fn found_id(
    store: Store,
    faults: spec_fn(StoreRequestView) -> Option<Seq<char>>,
) -> Option<Seq<char>> {
    match found(store, faults, LEGACY_KEY@) {
        Some(id) => Some(id),
        None => found(store, faults, INSTALLATION_KEY@),
    }
}

/// Whatever requests fail, a lookup fails if and only if a write or a delete that
/// it made failed. That one is its last request, and its error is returned. A
/// lookup that succeeds returns the id that the reads found, marked as known, or
/// the fresh one, marked as new, if they found none.
pub proof fn law_only_failed_changes_fail(
    store: Store,
    faults: spec_fn(StoreRequestView) -> Option<Seq<char>>,
    fresh: Seq<char>,
)
    ensures
        ({
            let made = requests_made(store, faults, fresh);
            let result = run(store, faults, fresh).1;
            &&& made.len() > 0
            &&& result is Err <==> exists|i: int|
                0 <= i < made.len() && is_failed_change(#[trigger] made[i], faults)
            &&& result matches Err(error) ==> made.last() !is Read && faults(made.last()) == Some(
                error,
            )
            &&& result matches Ok((id, known)) ==> {
                &&& known <==> found_id(store, faults) is Some
                &&& id == found_id(store, faults).unwrap_or(fresh)
            }
        }),
{
    reveal_with_fuel(finish, 4);
    reveal_with_fuel(requests_from, 4);
    let made = requests_made(store, faults, fresh);
    if run(store, faults, fresh).1 is Err {
        assert(is_failed_change(made[made.len() - 1], faults));
    }
}

/// A lookup makes the requests that it needs and no others, whatever fails. The
/// legacy key is read first. If it gives an id, that is stored under the current
/// key, and only then the legacy key is deleted. If it gives none, the current key
/// is read, and only if that gives none either, the fresh id is stored.
pub proof fn law_no_request_is_made_in_vain(
    store: Store,
    faults: spec_fn(StoreRequestView) -> Option<Seq<char>>,
    fresh: Seq<char>,
)
    ensures
        ({
            let made = requests_made(store, faults, fresh);
            let legacy = StoreRequestView::Read { key: LEGACY_KEY@ };
            let current = StoreRequestView::Read { key: INSTALLATION_KEY@ };
            if faults(legacy) is None && store.contains_key(LEGACY_KEY@) {
                let write = StoreRequestView::Write {
                    key: INSTALLATION_KEY@,
                    value: store[LEGACY_KEY@],
                };
                let delete = StoreRequestView::Delete { key: LEGACY_KEY@ };
                made == (if faults(write) is None {
                    seq![legacy, write, delete]
                } else {
                    seq![legacy, write]
                })
            } else if faults(current) is None && store.contains_key(INSTALLATION_KEY@) {
                made == seq![legacy, current]
            } else {
                made == seq![
                    legacy,
                    current,
                    StoreRequestView::Write { key: INSTALLATION_KEY@, value: fresh },
                ]
            }
        }),
{
    reveal_with_fuel(requests_from, 4);
    let made = requests_made(store, faults, fresh);
    let legacy = StoreRequestView::Read { key: LEGACY_KEY@ };
    let current = StoreRequestView::Read { key: INSTALLATION_KEY@ };
    if faults(legacy) is None && store.contains_key(LEGACY_KEY@) {
        let write = StoreRequestView::Write { key: INSTALLATION_KEY@, value: store[LEGACY_KEY@] };
        let delete = StoreRequestView::Delete { key: LEGACY_KEY@ };
        if faults(write) is None {
            assert(made =~= seq![legacy, write, delete]);
        } else {
            assert(made =~= seq![legacy, write]);
        }
    } else if faults(current) is None && store.contains_key(INSTALLATION_KEY@) {
        assert(made =~= seq![legacy, current]);
    } else {
        assert(made =~= seq![
            legacy,
            current,
            StoreRequestView::Write { key: INSTALLATION_KEY@, value: fresh },
        ]);
    }
}

/// A lookup waits for just one kind of reply in each state.
pub proof fn law_lookup_waits_for_one_kind_of_reply(lookup: LookupView, reply: StoreReplyView)
    ensures
        answers(lookup, reply) <==> lookup !is Finished && (reply is Read <==> (lookup
            is ReadingLegacy || lookup is ReadingCurrent)),
{
}

/// What contracts see of these values is all that they hold.
pub proof fn law_lookup_views_leave_nothing_out(
    text: String,
    value: String,
    known: bool,
    request: StoreRequest,
)
    ensures
        (Lookup::ReadingLegacy)@ == LookupView::ReadingLegacy,
        (Lookup::WritingMigrated { id: text })@ == (LookupView::WritingMigrated { id: text@ }),
        (Lookup::DeletingLegacy { id: text })@ == (LookupView::DeletingLegacy { id: text@ }),
        (Lookup::ReadingCurrent)@ == LookupView::ReadingCurrent,
        (Lookup::WritingFresh { id: text })@ == (LookupView::WritingFresh { id: text@ }),
        (Lookup::Finished)@ == LookupView::Finished,
        (StoreRequest::Read { key: text })@ == (StoreRequestView::Read { key: text@ }),
        (StoreRequest::Write { key: text, value })@ == (StoreRequestView::Write {
            key: text@,
            value: value@,
        }),
        (StoreRequest::Delete { key: text })@ == (StoreRequestView::Delete { key: text@ }),
        StoreReply::Read(Ok(Some(text)))@ == StoreReplyView::Read(Ok(Some(text@))),
        StoreReply::Read(Ok(None))@ == StoreReplyView::Read(Ok(None)),
        StoreReply::Read(Err(text))@ == StoreReplyView::Read(Err(text@)),
        StoreReply::Changed(Ok(()))@ == StoreReplyView::Changed(Ok(())),
        StoreReply::Changed(Err(text))@ == StoreReplyView::Changed(Err(text@)),
        LookupStep::Ask(request)@ == LookupStepView::Ask(request@),
        LookupStep::Return(Ok((text, known)))@ == LookupStepView::Return(Ok((text@, known))),
        LookupStep::Return(Err(text))@ == LookupStepView::Return(Err(text@)),
{
}

} // verus!
