//! The host state calls: what is sent to the host for each operation that a
//! script asks for, and how the host's reply is read.
use crate::codec::{
    decode, encode, from_neutral, member_views, to_neutral, CodecError, Member, MemberModel,
    NeutralModel, NeutralValue,
};
use crate::text::{chars_of, matches_at, starts_with, string_of};
use crate::value::{GuestValue, ValueModel};
use vstd::prelude::*;
use vstd::string::StringExecFns;

verus! {

/// The prefix that marks a reply of the host as an error.
pub open spec fn sentinel() -> Seq<char> {
    "ERROR:"@
}

/// What a reply of the host means: the text after the sentinel is an error
/// message; a reply without the sentinel is the payload, whatever it holds.
pub open spec fn reply_meaning(text: Seq<char>) -> Result<Seq<char>, Seq<char>> {
    if starts_with(text, sentinel()) {
        Err(text.skip(sentinel().len() as int))
    } else {
        Ok(text)
    }
}

/// Reads a reply of the host: `Err` with the message when the reply begins
/// with the sentinel, `Ok` with the whole reply as payload otherwise.
pub fn classify_reply(text: &str) -> (r: Result<String, String>)
    ensures
        match reply_meaning(text@) {
            Ok(payload) => r matches Ok(x) && x@ == payload,
            Err(message) => r matches Err(x) && x@ == message,
        },
{
    let chars = chars_of(text);
    let mark = chars_of("ERROR:");
    if matches_at(&chars, &mark, 0) {
        let message = string_of(&chars, mark.len(), chars.len());
        assert(text@.skip(sentinel().len() as int) =~= chars@.subrange(
            mark.len() as int,
            chars.len() as int,
        ));
        Err(message)
    } else {
        Ok(String::from_str(text))
    }
}

/// Reads the reply to a call that returns nothing: `Err` with the message
/// when the reply begins with the sentinel, `Ok` otherwise.
pub fn unit_reply(text: &str) -> (r: Result<(), String>)
    ensures
        match reply_meaning(text@) {
            Ok(_) => r is Ok,
            Err(message) => r matches Err(x) && x@ == message,
        },
{
    match classify_reply(text) {
        Ok(_) => Ok(()),
        Err(message) => Err(message),
    }
}

/// One call to the host's store of triples.
#[derive(Debug, PartialEq)]
pub enum HostCall {
    /// Store the triple.
    Insert { subject: String, predicate: String, object: NeutralValue },
    /// Remove the triples with this subject and predicate, and with this
    /// object unless it is null.
    Delete { subject: String, predicate: String, object: NeutralValue },
    /// List the triples that match the pattern.
    Query { pattern: NeutralValue },
    /// Store each triple of the list.
    BatchInsert { triples: NeutralValue },
}

/// The mathematical content of a call.
pub enum HostCallModel {
    Insert { subject: Seq<char>, predicate: Seq<char>, object: NeutralModel },
    Delete { subject: Seq<char>, predicate: Seq<char>, object: NeutralModel },
    Query { pattern: NeutralModel },
    BatchInsert { triples: NeutralModel },
}

impl View for HostCall {
    type V = HostCallModel;

    open spec fn view(&self) -> HostCallModel {
        match self {
            HostCall::Insert { subject, predicate, object } => HostCallModel::Insert {
                subject: subject@,
                predicate: predicate@,
                object: object@,
            },
            HostCall::Delete { subject, predicate, object } => HostCallModel::Delete {
                subject: subject@,
                predicate: predicate@,
                object: object@,
            },
            HostCall::Query { pattern } => HostCallModel::Query { pattern: pattern@ },
            HostCall::BatchInsert { triples } => HostCallModel::BatchInsert { triples: triples@ },
        }
    }
}

/// The neutral form of a text that may be absent.
pub open spec fn text_or_null(t: Option<String>) -> NeutralModel {
    match t {
        Some(s) => NeutralModel::Text(s@),
        None => NeutralModel::Null,
    }
}

/// The pattern of a query: an object with the members `subject`, `predicate`
/// and `object`, where null stands for any value.
pub open spec fn pattern_of(
    subject: NeutralModel,
    predicate: NeutralModel,
    object: NeutralModel,
) -> NeutralModel {
    NeutralModel::Object(
        seq![
            MemberModel { name: "subject"@, value: subject },
            MemberModel { name: "predicate"@, value: predicate },
            MemberModel { name: "object"@, value: object },
        ],
    )
}

fn pattern(subject: NeutralValue, predicate: NeutralValue, object: NeutralValue) -> (p:
    NeutralValue)
    ensures
        p@ == pattern_of(subject@, predicate@, object@),
{
    let mut members: Vec<Member> = Vec::new();
    members.push(Member::new("subject", subject));
    members.push(Member::new("predicate", predicate));
    members.push(Member::new("object", object));
    assert(member_views(members@) =~= pattern_of(subject@, predicate@, object@)->Object_0);
    NeutralValue::object(members)
}

fn text_value(t: Option<String>) -> (n: NeutralValue)
    ensures
        n@ == text_or_null(t),
{
    match t {
        Some(s) => NeutralValue::Text(s),
        None => NeutralValue::Null,
    }
}

/// The call for `insert(subject, predicate, object)`. It fails when the
/// object has no neutral form.
pub fn insert_call(subject: &str, predicate: &str, object: &GuestValue) -> (r: Result<
    HostCall,
    CodecError,
>)
    ensures
        match encode(object@) {
            Ok(n) => r matches Ok(call) && call@ == (HostCallModel::Insert {
                subject: subject@,
                predicate: predicate@,
                object: n,
            }),
            Err(e) => r matches Err(f) && f == e,
        },
{
    match to_neutral(object) {
        Ok(n) => Ok(
            HostCall::Insert {
                subject: String::from_str(subject),
                predicate: String::from_str(predicate),
                object: n,
            },
        ),
        Err(e) => Err(e),
    }
}

/// The call for `delete(subject, predicate, object)`. Without an object the
/// call carries null, which removes the triples whatever their object is. It
/// fails when the object has no neutral form.
pub fn delete_call(subject: &str, predicate: &str, object: Option<&GuestValue>) -> (r: Result<
    HostCall,
    CodecError,
>)
    ensures
        match object {
            None => r matches Ok(call) && call@ == (HostCallModel::Delete {
                subject: subject@,
                predicate: predicate@,
                object: NeutralModel::Null,
            }),
            Some(v) => match encode(v@) {
                Ok(n) => r matches Ok(call) && call@ == (HostCallModel::Delete {
                    subject: subject@,
                    predicate: predicate@,
                    object: n,
                }),
                Err(e) => r matches Err(f) && f == e,
            },
        },
{
    let n = match object {
        None => NeutralValue::Null,
        Some(v) => match to_neutral(v) {
            Ok(n) => n,
            Err(e) => {
                return Err(e);
            },
        },
    };
    Ok(
        HostCall::Delete {
            subject: String::from_str(subject),
            predicate: String::from_str(predicate),
            object: n,
        },
    )
}

/// The call for `query(pattern)`: each part of the pattern that is absent
/// becomes null, which matches any value. It fails when the object has no
/// neutral form.
pub fn query_call(
    subject: Option<String>,
    predicate: Option<String>,
    object: Option<&GuestValue>,
) -> (r: Result<HostCall, CodecError>)
    ensures
        match object {
            None => r matches Ok(call) && call@ == (HostCallModel::Query {
                pattern: pattern_of(
                    text_or_null(subject),
                    text_or_null(predicate),
                    NeutralModel::Null,
                ),
            }),
            Some(v) => match encode(v@) {
                Ok(n) => r matches Ok(call) && call@ == (HostCallModel::Query {
                    pattern: pattern_of(text_or_null(subject), text_or_null(predicate), n),
                }),
                Err(e) => r matches Err(f) && f == e,
            },
        },
{
    let n = match object {
        None => NeutralValue::Null,
        Some(v) => match to_neutral(v) {
            Ok(n) => n,
            Err(e) => {
                return Err(e);
            },
        },
    };
    Ok(HostCall::Query { pattern: pattern(text_value(subject), text_value(predicate), n) })
}

/// The call for `batchInsert(triples)`. It fails when the list has no
/// neutral form.
pub fn batch_insert_call(triples: &GuestValue) -> (r: Result<HostCall, CodecError>)
    ensures
        match encode(triples@) {
            Ok(n) => r matches Ok(call) && call@ == (HostCallModel::BatchInsert { triples: n }),
            Err(e) => r matches Err(f) && f == e,
        },
{
    match to_neutral(triples) {
        Ok(n) => Ok(HostCall::BatchInsert { triples: n }),
        Err(e) => Err(e),
    }
}

/// The call for `get(subject, predicate)`: a query for the triples with this
/// subject and predicate, whatever their object.
pub fn get_call(subject: &str, predicate: &str) -> (call: HostCall)
    ensures
        call@ == (HostCallModel::Query {
            pattern: pattern_of(
                NeutralModel::Text(subject@),
                NeutralModel::Text(predicate@),
                NeutralModel::Null,
            ),
        }),
{
    HostCall::Query {
        pattern: pattern(
            NeutralValue::Text(String::from_str(subject)),
            NeutralValue::Text(String::from_str(predicate)),
            NeutralValue::Null,
        ),
    }
}

/// The first call of `set(subject, predicate, object)`: remove the triples
/// with this subject and predicate, whatever their object.
pub fn set_delete_call(subject: &str, predicate: &str) -> (call: HostCall)
    ensures
        call@ == (HostCallModel::Delete {
            subject: subject@,
            predicate: predicate@,
            object: NeutralModel::Null,
        }),
{
    HostCall::Delete {
        subject: String::from_str(subject),
        predicate: String::from_str(predicate),
        object: NeutralValue::Null,
    }
}

/// What `set` does once the host has answered its first call.
pub open spec fn set_second_step(
    delete_reply: Seq<char>,
    subject: Seq<char>,
    predicate: Seq<char>,
    object: ValueModel,
) -> Result<HostCallModel, Seq<char>> {
    match reply_meaning(delete_reply) {
        Err(message) => Err(message),
        Ok(_) => match encode(object) {
            Err(e) => Err(e.message_text()),
            Ok(n) => Ok(HostCallModel::Insert { subject, predicate, object: n }),
        },
    }
}

/// The second step of `set(subject, predicate, object)`, taken when the host
/// has answered the first call with `delete_reply`. When that reply is an
/// error, `set` ends with its message and nothing is inserted. Otherwise the
/// object is converted: when it has no neutral form `set` ends with the
/// message of that failure, though the old triples are gone; else the result
/// is the call that inserts the new triple.
pub fn set_insert_call(
    delete_reply: &str,
    subject: &str,
    predicate: &str,
    object: &GuestValue,
) -> (r: Result<HostCall, String>)
    ensures
        match set_second_step(delete_reply@, subject@, predicate@, object@) {
            Ok(call) => r matches Ok(x) && x@ == call,
            Err(message) => r matches Err(x) && x@ == message,
        },
{
    match classify_reply(delete_reply) {
        Err(message) => Err(message),
        Ok(_) => match insert_call(subject, predicate, object) {
            Ok(call) => Ok(call),
            Err(e) => Err(e.message()),
        },
    }
}

/// The message for a payload that cannot be read.
pub open spec fn parse_error(detail: Seq<char>) -> Seq<char> {
    "JSON parse error: "@ + detail
}

fn parse_failure(detail: &str) -> (s: String)
    ensures
        s@ == parse_error(detail@),
{
    let mut s = String::from_str("JSON parse error: ");
    s.append(detail);
    s
}

/// The value of the first member with this name, from position `from` on.
pub open spec fn member_named(members: Seq<MemberModel>, name: Seq<char>, from: int) -> Option<
    NeutralModel,
>
    decreases members.len() - from,
{
    if from < 0 || from >= members.len() {
        None
    } else if members[from].name == name {
        Some(members[from].value)
    } else {
        member_named(members, name, from + 1)
    }
}

/// What the payload of a query means to `query`: the list of triples as a
/// guest value.
pub open spec fn query_meaning(parsed: Result<NeutralModel, Seq<char>>) -> Result<
    ValueModel,
    Seq<char>,
> {
    match parsed {
        Err(detail) => Err(parse_error(detail)),
        Ok(payload) => Ok(decode(payload)),
    }
}

/// What the payload of a query means to `get`: the object of the first
/// triple, or nil when there is no triple or the first has no object.
pub open spec fn get_meaning(parsed: Result<NeutralModel, Seq<char>>) -> Result<
    ValueModel,
    Seq<char>,
> {
    match parsed {
        Err(detail) => Err(parse_error(detail)),
        Ok(NeutralModel::Array(triples)) => if triples.len() == 0 {
            Ok(ValueModel::Nil)
        } else {
            match triples[0] {
                NeutralModel::Object(members) => match member_named(members, "object"@, 0) {
                    Some(object) => Ok(decode(object)),
                    None => Ok(ValueModel::Nil),
                },
                _ => Ok(ValueModel::Nil),
            }
        },
        Ok(_) => Err(parse_error("expected a sequence"@)),
    }
}

/// The content of a parsed payload.
pub open spec fn parsed_view(parsed: Result<NeutralValue, String>) -> Result<
    NeutralModel,
    Seq<char>,
> {
    match parsed {
        Ok(n) => Ok(n@),
        Err(detail) => Err(detail@),
    }
}

/// The result of `query`, from the payload as the parser returned it: the
/// list of triples as a guest value, or the parser's failure.
pub fn query_result(parsed: &Result<NeutralValue, String>) -> (r: Result<GuestValue, String>)
    ensures
        match query_meaning(parsed_view(*parsed)) {
            Ok(v) => r matches Ok(x) && x@ == v,
            Err(message) => r matches Err(x) && x@ == message,
        },
{
    match parsed {
        Err(detail) => Err(parse_failure(detail.as_str())),
        Ok(payload) => Ok(from_neutral(payload)),
    }
}

/// The result of `get`, from the payload as the parser returned it: the
/// object of the first triple of the list, nil when the list is empty or its
/// first triple has no member `object`; a failure when the parser failed or
/// the payload is no list.
pub fn get_result(parsed: &Result<NeutralValue, String>) -> (r: Result<GuestValue, String>)
    ensures
        match get_meaning(parsed_view(*parsed)) {
            Ok(v) => r matches Ok(x) && x@ == v,
            Err(message) => r matches Err(x) && x@ == message,
        },
{
    match parsed {
        Err(detail) => Err(parse_failure(detail.as_str())),
        Ok(NeutralValue::Array(triples)) => {
            if triples.len() == 0 {
                return Ok(GuestValue::Nil);
            }
            match &triples[0] {
                NeutralValue::Object(members) => {
                    let wanted = String::from_str("object");
                    let ghost ms = triples@[0]@->Object_0;
                    proof {
                        let payload = parsed->Ok_0;
                        assert(payload@->Array_0.len() == triples@.len());
                        assert(payload@->Array_0[0] == triples@[0]@);
                    }
                    let mut i: usize = 0;
                    while i < members.len()
                        invariant
                            i <= members.len(),
                            wanted@ == "object"@,
                            ms.len() == members.len(),
                            forall|j: int|
                                0 <= j < members.len() ==> ms[j] == (MemberModel {
                                    name: members@[j].name@,
                                    value: members@[j].value@,
                                }),
                            member_named(ms, "object"@, 0) == member_named(
                                ms,
                                "object"@,
                                i as int,
                            ),
                            get_meaning(parsed_view(*parsed)) == (match member_named(
                                ms,
                                "object"@,
                                0,
                            ) {
                                Some(object) => Ok::<ValueModel, Seq<char>>(decode(object)),
                                None => Ok(ValueModel::Nil),
                            }),
                        decreases members.len() - i,
                    {
                        if members[i].name == wanted {
                            assert(member_named(ms, "object"@, i as int) == Some(
                                ms[i as int].value,
                            ));
                            return Ok(from_neutral(&members[i].value));
                        }
                        i += 1;
                    }
                    Ok(GuestValue::Nil)
                },
                _ => Ok(GuestValue::Nil),
            }
        },
        Ok(_) => Err(parse_failure("expected a sequence")),
    }
}

/// One triple in a store.
pub struct TripleModel {
    pub subject: Seq<char>,
    pub predicate: Seq<char>,
    pub object: NeutralModel,
}

/// The triple is one that a deletion with these parts removes: subject and
/// predicate are the same, and so is the object unless null was given.
pub open spec fn deleted_by(
    triple: TripleModel,
    subject: Seq<char>,
    predicate: Seq<char>,
    object: NeutralModel,
) -> bool {
    &&& triple.subject == subject
    &&& triple.predicate == predicate
    &&& (object is Null || triple.object == object)
}

/// A store that keeps what it is given: its triples after a deletion.
pub open spec fn after_delete(
    store: Seq<TripleModel>,
    subject: Seq<char>,
    predicate: Seq<char>,
    object: NeutralModel,
) -> Seq<TripleModel>
    decreases store.len(),
{
    if store.len() == 0 {
        store
    } else if deleted_by(store.last(), subject, predicate, object) {
        after_delete(store.drop_last(), subject, predicate, object)
    } else {
        after_delete(store.drop_last(), subject, predicate, object).push(store.last())
    }
}

/// A store that keeps what it is given: its triples after an insertion.
pub open spec fn after_insert(
    store: Seq<TripleModel>,
    subject: Seq<char>,
    predicate: Seq<char>,
    object: NeutralModel,
) -> Seq<TripleModel> {
    store.push(TripleModel { subject, predicate, object })
}

/// The triples of a store with this subject and predicate, as the store
/// lists them in its answer to a query.
pub open spec fn listed(store: Seq<TripleModel>, subject: Seq<char>, predicate: Seq<char>) -> Seq<
    NeutralModel,
>
    decreases store.len(),
{
    if store.len() == 0 {
        Seq::empty()
    } else if store.last().subject == subject && store.last().predicate == predicate {
        listed(store.drop_last(), subject, predicate).push(
            pattern_of(
                NeutralModel::Text(store.last().subject),
                NeutralModel::Text(store.last().predicate),
                store.last().object,
            ),
        )
    } else {
        listed(store.drop_last(), subject, predicate)
    }
}

proof fn lemma_nothing_listed_after_delete(
    store: Seq<TripleModel>,
    subject: Seq<char>,
    predicate: Seq<char>,
)
    ensures
        listed(after_delete(store, subject, predicate, NeutralModel::Null), subject, predicate)
            == Seq::<NeutralModel>::empty(),
    decreases store.len(),
{
    if store.len() > 0 {
        lemma_nothing_listed_after_delete(store.drop_last(), subject, predicate);
        let rest = after_delete(store.drop_last(), subject, predicate, NeutralModel::Null);
        if !deleted_by(store.last(), subject, predicate, NeutralModel::Null) {
            assert(rest.push(store.last()).drop_last() =~= rest);
        }
    }
}

/// With a store that keeps what it is given and that nothing else changes,
/// `get` right after `set` returns the value that was set: when the calls of
/// `set(subject, predicate, value)` have been made, the answer to the call
/// of `get(subject, predicate)` means `value`.
pub proof fn lemma_get_after_set(
    store: Seq<TripleModel>,
    subject: Seq<char>,
    predicate: Seq<char>,
    value: ValueModel,
)
    requires
        crate::codec::representable(value),
    ensures
        encode(value) is Ok,
        get_meaning(
            Ok(
                NeutralModel::Array(
                    listed(
                        after_insert(
                            after_delete(store, subject, predicate, NeutralModel::Null),
                            subject,
                            predicate,
                            encode(value)->Ok_0,
                        ),
                        subject,
                        predicate,
                    ),
                ),
            ),
        ) == Ok::<ValueModel, Seq<char>>(value),
{
    crate::codec::lemma_round_trip(value);
    lemma_nothing_listed_after_delete(store, subject, predicate);
    let object = encode(value)->Ok_0;
    let emptied = after_delete(store, subject, predicate, NeutralModel::Null);
    let filled = after_insert(emptied, subject, predicate, object);
    assert(filled.drop_last() =~= emptied);
    let answer = listed(filled, subject, predicate);
    let triple = pattern_of(NeutralModel::Text(subject), NeutralModel::Text(predicate), object);
    assert(answer =~= seq![triple]);
    let members = triple->Object_0;
    reveal_strlit("subject");
    reveal_strlit("predicate");
    reveal_strlit("object");
    assert(members[0].name.len() != "object"@.len());
    assert(members[1].name.len() != "object"@.len());
    assert(member_named(members, "object"@, 2) == Some(object));
    assert(member_named(members, "object"@, 1) == Some(object));
    assert(member_named(members, "object"@, 0) == Some(object));
}

} // verus!
