//! The neutral values that cross the host boundary, and the conversion
//! between them and guest values.
use crate::value::{EntryModel, GuestEntry, GuestValue, ValueKind, ValueModel};
use vstd::prelude::*;
use vstd::string::StringExecFns;

verus! {

/// A value in the host-neutral form: null, a boolean, a number, a string,
/// an ordered array, or an object of named members.
///
/// A number is an `Integer` or a `Float`. A `Float` holds the number as the
/// text that the standard library prints for it, as a `Float` among the
/// guest values does; in a neutral value that came out of a conversion the
/// number is finite, so the text is none of `NaN`, `inf` and `-inf`.
#[derive(Debug, PartialEq)]
pub enum NeutralValue {
    Null,
    Bool(bool),
    Integer(i64),
    Float(String),
    Text(String),
    Array(Vec<NeutralValue>),
    Object(Vec<Member>),
}

/// One member of an object: a name and the value stored under it.
#[derive(Debug, PartialEq)]
pub struct Member {
    pub name: String,
    pub value: NeutralValue,
}

/// The mathematical content of a member.
pub struct MemberModel {
    pub name: Seq<char>,
    pub value: NeutralModel,
}

/// The mathematical content of a neutral value.
pub enum NeutralModel {
    Null,
    Bool(bool),
    Integer(int),
    Float(Seq<char>),
    Text(Seq<char>),
    Array(Seq<NeutralModel>),
    Object(Seq<MemberModel>),
}

impl View for NeutralValue {
    type V = NeutralModel;

    open spec fn view(&self) -> NeutralModel
        decreases self,
    {
        match self {
            NeutralValue::Null => NeutralModel::Null,
            NeutralValue::Bool(b) => NeutralModel::Bool(*b),
            NeutralValue::Integer(i) => NeutralModel::Integer(*i as int),
            NeutralValue::Float(t) => NeutralModel::Float(t@),
            NeutralValue::Text(t) => NeutralModel::Text(t@),
            NeutralValue::Array(items) => NeutralModel::Array(
                Seq::new(
                    items@.len(),
                    |i: int|
                        if 0 <= i < items@.len() {
                            items@[i].view()
                        } else {
                            NeutralModel::Null
                        },
                ),
            ),
            NeutralValue::Object(members) => NeutralModel::Object(
                Seq::new(
                    members@.len(),
                    |i: int|
                        if 0 <= i < members@.len() {
                            MemberModel { name: members@[i].name@, value: members@[i].value.view() }
                        } else {
                            MemberModel { name: Seq::empty(), value: NeutralModel::Null }
                        },
                ),
            ),
        }
    }
}

/// Why a guest value has no neutral form.
#[derive(Clone, Copy, Debug, PartialEq, Eq, Structural)]
pub enum CodecError {
    /// The value is a function, a thread, user data or an error value.
    Unsupported(ValueKind),
    /// The value is a string that is not valid text.
    InvalidText,
    /// The value is a record with a key of this kind, which is not text.
    InvalidKey(ValueKind),
}

/// The texts of the floats that are not finite numbers: the three words
/// that the standard library prints for them.
pub open spec fn is_non_finite(t: Seq<char>) -> bool {
    t == "NaN"@ || t == "inf"@ || t == "-inf"@
}

/// The neutral form of a guest value, or the first obstacle met when the
/// value is walked from left to right.
pub open spec fn encode(m: ValueModel) -> Result<NeutralModel, CodecError>
    decreases m, 0nat,
{
    match m {
        ValueModel::Nil => Ok(NeutralModel::Null),
        ValueModel::Boolean(b) => Ok(NeutralModel::Bool(b)),
        ValueModel::Integer(i) => Ok(NeutralModel::Integer(i)),
        ValueModel::Float(t) => if is_non_finite(t) {
            Ok(NeutralModel::Null)
        } else {
            Ok(NeutralModel::Float(t))
        },
        ValueModel::Text(t) => Ok(NeutralModel::Text(t)),
        ValueModel::Bytes(_) => Err(CodecError::InvalidText),
        ValueModel::Sequence(items) => match encode_items(items, items.len()) {
            Ok(a) => Ok(NeutralModel::Array(a)),
            Err(e) => Err(e),
        },
        ValueModel::Record(entries) => match encode_entries(entries, entries.len()) {
            Ok(o) => Ok(NeutralModel::Object(o)),
            Err(e) => Err(e),
        },
        ValueModel::Function => Err(CodecError::Unsupported(ValueKind::Function)),
        ValueModel::Thread => Err(CodecError::Unsupported(ValueKind::Thread)),
        ValueModel::UserData => Err(CodecError::Unsupported(ValueKind::UserData)),
        ValueModel::Error(_) => Err(CodecError::Unsupported(ValueKind::Error)),
    }
}

/// The neutral forms of the first `n` items, or the first obstacle among them.
pub open spec fn encode_items(items: Seq<ValueModel>, n: nat) -> Result<
    Seq<NeutralModel>,
    CodecError,
>
    decreases items, n,
{
    if n == 0 || n > items.len() {
        Ok(Seq::empty())
    } else {
        match encode_items(items, (n - 1) as nat) {
            Err(e) => Err(e),
            Ok(front) => match encode(items[n - 1]) {
                Err(e) => Err(e),
                Ok(x) => Ok(front.push(x)),
            },
        }
    }
}

/// The neutral forms of the first `n` entries, or the first obstacle among
/// them: a key that is not text, or an obstacle in an item.
pub open spec fn encode_entries(entries: Seq<EntryModel>, n: nat) -> Result<
    Seq<MemberModel>,
    CodecError,
>
    decreases entries, n,
{
    if n == 0 || n > entries.len() {
        Ok(Seq::empty())
    } else {
        match encode_entries(entries, (n - 1) as nat) {
            Err(e) => Err(e),
            Ok(front) => match entries[n - 1].key {
                ValueModel::Text(k) => match encode(entries[n - 1].item) {
                    Err(e) => Err(e),
                    Ok(x) => Ok(front.push(MemberModel { name: k, value: x })),
                },
                other => Err(CodecError::InvalidKey(other.kind())),
            },
        }
    }
}

/// The guest value that a neutral value stands for.
pub open spec fn decode(n: NeutralModel) -> ValueModel
    decreases n,
{
    match n {
        NeutralModel::Null => ValueModel::Nil,
        NeutralModel::Bool(b) => ValueModel::Boolean(b),
        NeutralModel::Integer(i) => ValueModel::Integer(i),
        NeutralModel::Float(t) => ValueModel::Float(t),
        NeutralModel::Text(t) => ValueModel::Text(t),
        NeutralModel::Array(items) => ValueModel::Sequence(
            Seq::new(
                items.len(),
                |i: int|
                    if 0 <= i < items.len() {
                        decode(items[i])
                    } else {
                        ValueModel::Nil
                    },
            ),
        ),
        NeutralModel::Object(members) => ValueModel::Record(
            Seq::new(
                members.len(),
                |i: int|
                    if 0 <= i < members.len() {
                        EntryModel {
                            key: ValueModel::Text(members[i].name),
                            item: decode(members[i].value),
                        }
                    } else {
                        EntryModel { key: ValueModel::Nil, item: ValueModel::Nil }
                    },
            ),
        ),
    }
}

/// The content of each value of a list.
pub open spec fn views(values: Seq<NeutralValue>) -> Seq<NeutralModel> {
    Seq::new(values.len(), |i: int| values[i]@)
}

/// The content of each member of a list.
pub open spec fn member_views(members: Seq<Member>) -> Seq<MemberModel> {
    Seq::new(
        members.len(),
        |i: int| MemberModel { name: members[i].name@, value: members[i].value@ },
    )
}

proof fn lemma_items_obstacle_stays(items: Seq<ValueModel>, i: nat, n: nat)
    requires
        i <= n <= items.len(),
        encode_items(items, i) is Err,
    ensures
        encode_items(items, n) == encode_items(items, i),
    decreases n - i,
{
    if i < n {
        lemma_items_obstacle_stays(items, i, (n - 1) as nat);
    }
}

proof fn lemma_entries_obstacle_stays(entries: Seq<EntryModel>, i: nat, n: nat)
    requires
        i <= n <= entries.len(),
        encode_entries(entries, i) is Err,
    ensures
        encode_entries(entries, n) == encode_entries(entries, i),
    decreases n - i,
{
    if i < n {
        lemma_entries_obstacle_stays(entries, i, (n - 1) as nat);
    }
}

fn non_finite(t: &String) -> (b: bool)
    ensures
        b == is_non_finite(t@),
{
    *t == String::from_str("NaN") || *t == String::from_str("inf") || *t == String::from_str(
        "-inf",
    )
}

/// Converts a guest value to its neutral form. Scalars, text and tables of
/// them convert member by member; a float that is not a finite number becomes
/// null. The conversion fails at the first function, thread, user data, error
/// value, string that is not text, or record key that is not text.
pub fn to_neutral(v: &GuestValue) -> (r: Result<NeutralValue, CodecError>)
    ensures
        match encode(v@) {
            Ok(n) => r matches Ok(x) && x@ == n,
            Err(e) => r matches Err(f) && f == e,
        },
    decreases v,
{
    match v {
        GuestValue::Nil => Ok(NeutralValue::Null),
        GuestValue::Boolean(b) => Ok(NeutralValue::Bool(*b)),
        GuestValue::Integer(i) => Ok(NeutralValue::Integer(*i)),
        GuestValue::Float(t) => if non_finite(t) {
            Ok(NeutralValue::Null)
        } else {
            Ok(NeutralValue::Float(t.clone()))
        },
        GuestValue::Text(t) => Ok(NeutralValue::Text(t.clone())),
        GuestValue::Bytes(_) => Err(CodecError::InvalidText),
        GuestValue::Sequence(items) => {
            let ghost ms = v@->Sequence_0;
            let mut out: Vec<NeutralValue> = Vec::new();
            let mut i: usize = 0;
            assert(views(out@) =~= Seq::empty());
            while i < items.len()
                invariant
                    i <= items.len(),
                    v is Sequence,
                    v->Sequence_0 == *items,
                    v@ == ValueModel::Sequence(ms),
                    ms.len() == items.len(),
                    forall|j: int| 0 <= j < items.len() ==> ms[j] == items@[j]@,
                    encode_items(ms, i as nat) == Ok::<Seq<NeutralModel>, CodecError>(views(out@)),
                decreases items.len() - i,
            {
                assert(decreases_to!(*v => v->Sequence_0));
                assert(decreases_to!(*items => items[i as int]));
                match to_neutral(&items[i]) {
                    Err(e) => {
                        proof {
                            assert(encode_items(ms, (i + 1) as nat) == Err::<
                                Seq<NeutralModel>,
                                CodecError,
                            >(e));
                            lemma_items_obstacle_stays(ms, (i + 1) as nat, ms.len());
                        }
                        return Err(e);
                    },
                    Ok(x) => {
                        let ghost before = views(out@);
                        out.push(x);
                        assert(views(out@) =~= before.push(x@));
                    },
                }
                i += 1;
            }
            let r = NeutralValue::Array(out);
            assert(r@->Array_0 =~= views(out@));
            Ok(r)
        },
        GuestValue::Record(entries) => {
            let ghost ms = v@->Record_0;
            let mut out: Vec<Member> = Vec::new();
            let mut i: usize = 0;
            assert(member_views(out@) =~= Seq::empty());
            while i < entries.len()
                invariant
                    i <= entries.len(),
                    v is Record,
                    v->Record_0 == *entries,
                    v@ == ValueModel::Record(ms),
                    ms.len() == entries.len(),
                    forall|j: int|
                        0 <= j < entries.len() ==> ms[j] == (EntryModel {
                            key: entries@[j].key@,
                            item: entries@[j].item@,
                        }),
                    encode_entries(ms, i as nat) == Ok::<Seq<MemberModel>, CodecError>(
                        member_views(out@),
                    ),
                decreases entries.len() - i,
            {
                assert(decreases_to!(*v => v->Record_0));
                assert(decreases_to!(*entries => entries[i as int]));
                let key = match &entries[i].key {
                    GuestValue::Text(k) => k.clone(),
                    other => {
                        let e = CodecError::InvalidKey(other.kind());
                        proof {
                            assert(encode_entries(ms, (i + 1) as nat) == Err::<
                                Seq<MemberModel>,
                                CodecError,
                            >(e));
                            lemma_entries_obstacle_stays(ms, (i + 1) as nat, ms.len());
                        }
                        return Err(e);
                    },
                };
                match to_neutral(&entries[i].item) {
                    Err(e) => {
                        proof {
                            assert(encode_entries(ms, (i + 1) as nat) == Err::<
                                Seq<MemberModel>,
                                CodecError,
                            >(e));
                            lemma_entries_obstacle_stays(ms, (i + 1) as nat, ms.len());
                        }
                        return Err(e);
                    },
                    Ok(x) => {
                        let ghost before = member_views(out@);
                        let ghost member = MemberModel { name: key@, value: x@ };
                        out.push(Member { name: key, value: x });
                        assert(member_views(out@) =~= before.push(member));
                    },
                }
                i += 1;
            }
            let r = NeutralValue::Object(out);
            assert(r@->Object_0 =~= member_views(out@));
            Ok(r)
        },
        GuestValue::Function => Err(CodecError::Unsupported(ValueKind::Function)),
        GuestValue::Thread => Err(CodecError::Unsupported(ValueKind::Thread)),
        GuestValue::UserData => Err(CodecError::Unsupported(ValueKind::UserData)),
        GuestValue::Error(_) => Err(CodecError::Unsupported(ValueKind::Error)),
    }
}

/// Converts a neutral value to the guest value that it stands for: an array
/// becomes a sequence, an object a record with text keys.
pub fn from_neutral(n: &NeutralValue) -> (v: GuestValue)
    ensures
        v@ == decode(n@),
    decreases n,
{
    match n {
        NeutralValue::Null => GuestValue::Nil,
        NeutralValue::Bool(b) => GuestValue::Boolean(*b),
        NeutralValue::Integer(i) => GuestValue::Integer(*i),
        NeutralValue::Float(t) => GuestValue::Float(t.clone()),
        NeutralValue::Text(t) => GuestValue::Text(t.clone()),
        NeutralValue::Array(items) => {
            let mut out: Vec<GuestValue> = Vec::new();
            let mut i: usize = 0;
            while i < items.len()
                invariant
                    i <= items.len(),
                    n is Array,
                    n->Array_0 == *items,
                    out.len() == i,
                    forall|j: int| 0 <= j < i ==> out@[j]@ == decode(items@[j]@),
                decreases items.len() - i,
            {
                assert(decreases_to!(*n => n->Array_0));
                assert(decreases_to!(*items => items[i as int]));
                out.push(from_neutral(&items[i]));
                i += 1;
            }
            let v = GuestValue::Sequence(out);
            assert(v@->Sequence_0 =~= decode(n@)->Sequence_0);
            v
        },
        NeutralValue::Object(members) => {
            let mut out: Vec<GuestEntry> = Vec::new();
            let mut i: usize = 0;
            while i < members.len()
                invariant
                    i <= members.len(),
                    n is Object,
                    n->Object_0 == *members,
                    out.len() == i,
                    forall|j: int|
                        0 <= j < i ==> out@[j].key@ == ValueModel::Text(members@[j].name@)
                            && out@[j].item@ == decode(members@[j].value@),
                decreases members.len() - i,
            {
                assert(decreases_to!(*n => n->Object_0));
                assert(decreases_to!(*members => members[i as int]));
                let key = GuestValue::Text(members[i].name.clone());
                let item = from_neutral(&members[i].value);
                out.push(GuestEntry { key, item });
                i += 1;
            }
            let v = GuestValue::Record(out);
            assert(v@->Record_0 =~= decode(n@)->Record_0);
            v
        },
    }
}

/// The guest values that have a neutral form: scalars, text, and tables of
/// such values whose record keys are text.
pub open spec fn encodable(m: ValueModel) -> bool
    decreases m,
{
    match m {
        ValueModel::Nil => true,
        ValueModel::Boolean(_) => true,
        ValueModel::Integer(_) => true,
        ValueModel::Float(_) => true,
        ValueModel::Text(_) => true,
        ValueModel::Sequence(items) => forall|i: int|
            0 <= i < items.len() ==> encodable(#[trigger] items[i]),
        ValueModel::Record(entries) => forall|i: int|
            0 <= i < entries.len() ==> (#[trigger] entries[i]).key is Text && encodable(
                entries[i].item,
            ),
        _ => false,
    }
}

/// The conversion to the neutral form succeeds on the values that have one,
/// and on no others.
pub proof fn lemma_encode_succeeds_on_encodable(m: ValueModel)
    ensures
        encode(m) is Ok <==> encodable(m),
    decreases m, 0nat,
{
    match m {
        ValueModel::Sequence(items) => {
            lemma_encode_items_succeed(items, items.len());
        },
        ValueModel::Record(entries) => {
            lemma_encode_entries_succeed(entries, entries.len());
        },
        _ => {},
    }
}

proof fn lemma_encode_items_succeed(items: Seq<ValueModel>, n: nat)
    requires
        n <= items.len(),
    ensures
        encode_items(items, n) is Ok <==> forall|i: int|
            0 <= i < n ==> encodable(#[trigger] items[i]),
    decreases items, n,
{
    if n > 0 {
        lemma_encode_items_succeed(items, (n - 1) as nat);
        lemma_encode_succeeds_on_encodable(items[n - 1]);
    }
}

proof fn lemma_encode_entries_succeed(entries: Seq<EntryModel>, n: nat)
    requires
        n <= entries.len(),
    ensures
        encode_entries(entries, n) is Ok <==> forall|i: int|
            0 <= i < n ==> (#[trigger] entries[i]).key is Text && encodable(entries[i].item),
    decreases entries, n,
{
    if n > 0 {
        lemma_encode_entries_succeed(entries, (n - 1) as nat);
        lemma_encode_succeeds_on_encodable(entries[n - 1].item);
    }
}

/// The guest values that the neutral form holds without loss: scalars with
/// finite floats, text, and tables of such values whose record keys are text.
pub open spec fn representable(m: ValueModel) -> bool
    decreases m,
{
    match m {
        ValueModel::Nil => true,
        ValueModel::Boolean(_) => true,
        ValueModel::Integer(_) => true,
        ValueModel::Float(t) => !is_non_finite(t),
        ValueModel::Text(_) => true,
        ValueModel::Sequence(items) => forall|i: int|
            0 <= i < items.len() ==> representable(#[trigger] items[i]),
        ValueModel::Record(entries) => forall|i: int|
            0 <= i < entries.len() ==> (#[trigger] entries[i]).key is Text && representable(
                entries[i].item,
            ),
        _ => false,
    }
}

/// The neutral values in which every float is a finite number.
pub open spec fn finite(n: NeutralModel) -> bool
    decreases n,
{
    match n {
        NeutralModel::Float(t) => !is_non_finite(t),
        NeutralModel::Array(items) => forall|i: int|
            0 <= i < items.len() ==> finite(#[trigger] items[i]),
        NeutralModel::Object(members) => forall|i: int|
            0 <= i < members.len() ==> finite((#[trigger] members[i]).value),
        _ => true,
    }
}

/// In the neutral form of a guest value every float is a finite number.
pub proof fn lemma_encoded_is_finite(v: ValueModel)
    requires
        encode(v) is Ok,
    ensures
        finite(encode(v)->Ok_0),
    decreases v, 0nat,
{
    match v {
        ValueModel::Sequence(items) => {
            lemma_encoded_items_are_finite(items, items.len());
        },
        ValueModel::Record(entries) => {
            lemma_encoded_entries_are_finite(entries, entries.len());
        },
        _ => {},
    }
}

proof fn lemma_encoded_items_are_finite(items: Seq<ValueModel>, n: nat)
    requires
        n <= items.len(),
        encode_items(items, n) is Ok,
    ensures
        encode_items(items, n)->Ok_0.len() == n,
        forall|i: int| 0 <= i < n ==> finite(#[trigger] encode_items(items, n)->Ok_0[i]),
    decreases items, n,
{
    if n > 0 {
        lemma_encoded_items_are_finite(items, (n - 1) as nat);
        lemma_encoded_is_finite(items[n - 1]);
    }
}

proof fn lemma_encoded_entries_are_finite(entries: Seq<EntryModel>, n: nat)
    requires
        n <= entries.len(),
        encode_entries(entries, n) is Ok,
    ensures
        encode_entries(entries, n)->Ok_0.len() == n,
        forall|i: int|
            0 <= i < n ==> finite((#[trigger] encode_entries(entries, n)->Ok_0[i]).value),
    decreases entries, n,
{
    if n > 0 {
        lemma_encoded_entries_are_finite(entries, (n - 1) as nat);
        lemma_encoded_is_finite(entries[n - 1].item);
    }
}

/// Converting a representable guest value to its neutral form and back
/// gives the value again.
pub proof fn lemma_round_trip(v: ValueModel)
    requires
        representable(v),
    ensures
        encode(v) is Ok,
        decode(encode(v)->Ok_0) == v,
    decreases v, 0nat,
{
    match v {
        ValueModel::Sequence(items) => {
            lemma_round_trip_items(items, items.len());
            let a = encode_items(items, items.len())->Ok_0;
            assert(decode(NeutralModel::Array(a))->Sequence_0 =~= items);
        },
        ValueModel::Record(entries) => {
            lemma_round_trip_entries(entries, entries.len());
            let o = encode_entries(entries, entries.len())->Ok_0;
            assert(decode(NeutralModel::Object(o))->Record_0 =~= entries);
        },
        _ => {},
    }
}

proof fn lemma_round_trip_items(items: Seq<ValueModel>, n: nat)
    requires
        n <= items.len(),
        forall|i: int| 0 <= i < items.len() ==> representable(#[trigger] items[i]),
    ensures
        encode_items(items, n) is Ok,
        encode_items(items, n)->Ok_0.len() == n,
        forall|i: int|
            0 <= i < n ==> decode(#[trigger] encode_items(items, n)->Ok_0[i]) == items[i],
    decreases items, n,
{
    if n > 0 {
        lemma_round_trip_items(items, (n - 1) as nat);
        lemma_round_trip(items[n - 1]);
    }
}

proof fn lemma_round_trip_entries(entries: Seq<EntryModel>, n: nat)
    requires
        n <= entries.len(),
        forall|i: int|
            0 <= i < entries.len() ==> (#[trigger] entries[i]).key is Text && representable(
                entries[i].item,
            ),
    ensures
        encode_entries(entries, n) is Ok,
        encode_entries(entries, n)->Ok_0.len() == n,
        forall|i: int|
            0 <= i < n ==> (#[trigger] encode_entries(entries, n)->Ok_0[i]).name
                == entries[i].key->Text_0 && decode(encode_entries(entries, n)->Ok_0[i].value)
                == entries[i].item,
    decreases entries, n,
{
    if n > 0 {
        lemma_round_trip_entries(entries, (n - 1) as nat);
        assert(entries[n - 1].key is Text);
        lemma_round_trip(entries[n - 1].item);
    }
}

/// Converting a neutral value with finite floats to a guest value and back
/// gives the value again.
pub proof fn lemma_neutral_round_trip(n: NeutralModel)
    requires
        finite(n),
    ensures
        encode(decode(n)) == Ok::<NeutralModel, CodecError>(n),
    decreases n, 0nat,
{
    match n {
        NeutralModel::Array(items) => {
            let decoded = decode(n)->Sequence_0;
            lemma_neutral_round_trip_items(items, decoded, items.len());
            assert(encode_items(decoded, decoded.len())->Ok_0 =~= items);
        },
        NeutralModel::Object(members) => {
            let decoded = decode(n)->Record_0;
            lemma_neutral_round_trip_members(members, decoded, members.len());
            assert(encode_entries(decoded, decoded.len())->Ok_0 =~= members);
        },
        _ => {},
    }
}

proof fn lemma_neutral_round_trip_items(
    items: Seq<NeutralModel>,
    decoded: Seq<ValueModel>,
    k: nat,
)
    requires
        k <= items.len(),
        decoded.len() == items.len(),
        forall|i: int| 0 <= i < items.len() ==> finite(#[trigger] items[i]),
        forall|i: int| 0 <= i < items.len() ==> #[trigger] decoded[i] == decode(items[i]),
    ensures
        encode_items(decoded, k) == Ok::<Seq<NeutralModel>, CodecError>(items.take(k as int)),
    decreases items, k,
{
    if k > 0 {
        lemma_neutral_round_trip_items(items, decoded, (k - 1) as nat);
        lemma_neutral_round_trip(items[k - 1]);
        assert(decoded[k - 1] == decode(items[k - 1]));
        assert(items.take(k - 1).push(items[k - 1]) =~= items.take(k as int));
    } else {
        assert(items.take(0) =~= Seq::empty());
    }
}

proof fn lemma_neutral_round_trip_members(
    members: Seq<MemberModel>,
    decoded: Seq<EntryModel>,
    k: nat,
)
    requires
        k <= members.len(),
        decoded.len() == members.len(),
        forall|i: int| 0 <= i < members.len() ==> finite((#[trigger] members[i]).value),
        forall|i: int|
            0 <= i < members.len() ==> #[trigger] decoded[i] == (EntryModel {
                key: ValueModel::Text(members[i].name),
                item: decode(members[i].value),
            }),
    ensures
        encode_entries(decoded, k) == Ok::<Seq<MemberModel>, CodecError>(members.take(k as int)),
    decreases members, k,
{
    if k > 0 {
        lemma_neutral_round_trip_members(members, decoded, (k - 1) as nat);
        lemma_neutral_round_trip(members[k - 1].value);
        assert(decoded[k - 1].key == ValueModel::Text(members[k - 1].name));
        assert(members.take(k - 1).push(members[k - 1]) =~= members.take(k as int));
    } else {
        assert(members.take(0) =~= Seq::empty());
    }
}

impl CodecError {
    /// The message of the error.
    pub open spec fn message_text(self) -> Seq<char> {
        match self {
            CodecError::Unsupported(k) => "cannot serialize <"@ + k.name() + ">"@,
            CodecError::InvalidText => "cannot serialize a string that is not valid text"@,
            CodecError::InvalidKey(k) => "cannot serialize a table with a key of type <"@
                + k.name() + ">"@,
        }
    }

    /// The message that the script or the host sees.
    pub fn message(&self) -> (s: String)
        ensures
            s@ == self.message_text(),
    {
        match self {
            CodecError::Unsupported(k) => {
                let mut s = String::from_str("cannot serialize <");
                s.append(k.name_text().as_str());
                s.append(">");
                s
            },
            CodecError::InvalidText => String::from_str(
                "cannot serialize a string that is not valid text",
            ),
            CodecError::InvalidKey(k) => {
                let mut s = String::from_str("cannot serialize a table with a key of type <");
                s.append(k.name_text().as_str());
                s.append(">");
                s
            },
        }
    }
}

impl Clone for NeutralValue {
    /// A deep copy.
    fn clone(&self) -> (r: NeutralValue)
        ensures
            r@ == self@,
        decreases self,
    {
        match self {
            NeutralValue::Null => NeutralValue::Null,
            NeutralValue::Bool(b) => NeutralValue::Bool(*b),
            NeutralValue::Integer(i) => NeutralValue::Integer(*i),
            NeutralValue::Float(t) => NeutralValue::Float(t.clone()),
            NeutralValue::Text(t) => NeutralValue::Text(t.clone()),
            NeutralValue::Array(items) => {
                let mut out: Vec<NeutralValue> = Vec::new();
                let mut i: usize = 0;
                while i < items.len()
                    invariant
                        i <= items.len(),
                        out.len() == i,
                        *self == NeutralValue::Array(*items),
                        forall|j: int| 0 <= j < i ==> out@[j]@ == items@[j]@,
                    decreases items.len() - i,
                {
                    assert(decreases_to!(*self => self->Array_0));
                    assert(decreases_to!(*items => items[i as int]));
                    out.push(items[i].clone());
                    i += 1;
                }
                let r = NeutralValue::Array(out);
                assert(r@->Array_0 =~= self@->Array_0);
                r
            },
            NeutralValue::Object(members) => {
                let mut out: Vec<Member> = Vec::new();
                let mut i: usize = 0;
                while i < members.len()
                    invariant
                        i <= members.len(),
                        out.len() == i,
                        *self == NeutralValue::Object(*members),
                        forall|j: int|
                            0 <= j < i ==> out@[j].name@ == members@[j].name@ && out@[j].value@
                                == members@[j].value@,
                    decreases members.len() - i,
                {
                    assert(decreases_to!(*self => self->Object_0));
                    assert(decreases_to!(*members => members[i as int]));
                    let name = members[i].name.clone();
                    let value = members[i].value.clone();
                    out.push(Member { name, value });
                    i += 1;
                }
                let r = NeutralValue::Object(out);
                assert(r@->Object_0 =~= self@->Object_0);
                r
            },
        }
    }
}

impl NeutralValue {
    /// The null value.
    pub fn null() -> (n: NeutralValue)
        ensures
            n@ == NeutralModel::Null,
    {
        NeutralValue::Null
    }

    /// The string with this text.
    pub fn text(t: String) -> (n: NeutralValue)
        ensures
            n@ == NeutralModel::Text(t@),
    {
        NeutralValue::Text(t)
    }

    /// The object with these members, in this order.
    pub fn object(members: Vec<Member>) -> (n: NeutralValue)
        ensures
            n@ == NeutralModel::Object(member_views(members@)),
    {
        let n = NeutralValue::Object(members);
        assert(n@->Object_0 =~= member_views(members@));
        n
    }
}

impl Member {
    /// The member with this name and value.
    pub fn new(name: &str, value: NeutralValue) -> (m: Member)
        ensures
            m.name@ == name@,
            m.value@ == value@,
    {
        Member { name: String::from_str(name), value }
    }
}

} // verus!
