//! The values of the guest language, as the bridge sees them, and their
//! rendering as text.
use crate::text::{decimal_text, signed_decimal};
use vstd::prelude::*;
use vstd::string::StringExecFns;

verus! {

/// The kinds of guest value.
#[derive(Clone, Copy, Debug, PartialEq, Eq, Structural)]
pub enum ValueKind {
    Nil,
    Boolean,
    Integer,
    Float,
    Str,
    Table,
    Function,
    Thread,
    UserData,
    Error,
}

/// A guest value, held as plain data.
///
/// A `Float` holds the number as the text that the standard library prints
/// for it: an optional minus sign and decimal digits, with a point and a
/// fraction only when the number is not whole, and never an exponent; and
/// the three words `NaN`, `inf` and `-inf` for the numbers that are not
/// finite. Whoever builds a `Float` gives it text of this form; the library
/// reads the text and never computes with it.
///
/// A string that is valid text is a `Text`, any other string is `Bytes`. A
/// table is a `Sequence` of items or a `Record` of keys and items.
/// Functions, threads and user data have no content that the bridge can
/// read.
#[derive(Debug, PartialEq)]
pub enum GuestValue {
    Nil,
    Boolean(bool),
    Integer(i64),
    Float(String),
    Text(String),
    Bytes(Vec<u8>),
    Sequence(Vec<GuestValue>),
    Record(Vec<GuestEntry>),
    Function,
    Thread,
    UserData,
    Error(String),
}

/// One entry of a record: a key and the item stored under it.
#[derive(Debug, PartialEq)]
pub struct GuestEntry {
    pub key: GuestValue,
    pub item: GuestValue,
}

/// The mathematical content of an entry.
pub struct EntryModel {
    pub key: ValueModel,
    pub item: ValueModel,
}

/// The mathematical content of a guest value.
pub enum ValueModel {
    Nil,
    Boolean(bool),
    Integer(int),
    Float(Seq<char>),
    Text(Seq<char>),
    Bytes(Seq<u8>),
    Sequence(Seq<ValueModel>),
    Record(Seq<EntryModel>),
    Function,
    Thread,
    UserData,
    Error(Seq<char>),
}

impl View for GuestValue {
    type V = ValueModel;

    open spec fn view(&self) -> ValueModel
        decreases self,
    {
        match self {
            GuestValue::Nil => ValueModel::Nil,
            GuestValue::Boolean(b) => ValueModel::Boolean(*b),
            GuestValue::Integer(i) => ValueModel::Integer(*i as int),
            GuestValue::Float(t) => ValueModel::Float(t@),
            GuestValue::Text(t) => ValueModel::Text(t@),
            GuestValue::Bytes(b) => ValueModel::Bytes(b@),
            GuestValue::Sequence(items) => ValueModel::Sequence(
                Seq::new(
                    items@.len(),
                    |i: int|
                        if 0 <= i < items@.len() {
                            items@[i].view()
                        } else {
                            ValueModel::Nil
                        },
                ),
            ),
            GuestValue::Record(entries) => ValueModel::Record(
                Seq::new(
                    entries@.len(),
                    |i: int|
                        if 0 <= i < entries@.len() {
                            EntryModel {
                                key: entries@[i].key.view(),
                                item: entries@[i].item.view(),
                            }
                        } else {
                            EntryModel { key: ValueModel::Nil, item: ValueModel::Nil }
                        },
                ),
            ),
            GuestValue::Function => ValueModel::Function,
            GuestValue::Thread => ValueModel::Thread,
            GuestValue::UserData => ValueModel::UserData,
            GuestValue::Error(t) => ValueModel::Error(t@),
        }
    }
}

/// The content of each value of a list.
pub open spec fn models(values: Seq<GuestValue>) -> Seq<ValueModel> {
    Seq::new(values.len(), |i: int| values[i]@)
}

impl ValueModel {
    /// The kind of the value.
    pub open spec fn kind(self) -> ValueKind {
        match self {
            ValueModel::Nil => ValueKind::Nil,
            ValueModel::Boolean(_) => ValueKind::Boolean,
            ValueModel::Integer(_) => ValueKind::Integer,
            ValueModel::Float(_) => ValueKind::Float,
            ValueModel::Text(_) => ValueKind::Str,
            ValueModel::Bytes(_) => ValueKind::Str,
            ValueModel::Sequence(_) => ValueKind::Table,
            ValueModel::Record(_) => ValueKind::Table,
            ValueModel::Function => ValueKind::Function,
            ValueModel::Thread => ValueKind::Thread,
            ValueModel::UserData => ValueKind::UserData,
            ValueModel::Error(_) => ValueKind::Error,
        }
    }

    /// The text that stands for the value in captured output.
    pub open spec fn rendered(self) -> Seq<char> {
        match self {
            ValueModel::Nil => "nil"@,
            ValueModel::Boolean(b) => if b {
                "true"@
            } else {
                "false"@
            },
            ValueModel::Integer(i) => signed_decimal(i),
            ValueModel::Float(t) => t,
            ValueModel::Text(t) => t,
            ValueModel::Bytes(_) => "<invalid utf8>"@,
            ValueModel::Sequence(_) => "table"@,
            ValueModel::Record(_) => "table"@,
            ValueModel::Function => "function"@,
            ValueModel::Thread => "thread"@,
            ValueModel::UserData => "userdata"@,
            ValueModel::Error(t) => t,
        }
    }
}

impl ValueKind {
    /// The kinds whose values are plain scalars or strings.
    pub open spec fn is_primitive(self) -> bool {
        self == ValueKind::Nil || self == ValueKind::Boolean || self == ValueKind::Integer || self
            == ValueKind::Float || self == ValueKind::Str
    }

    /// The name of the kind.
    pub open spec fn name(self) -> Seq<char> {
        match self {
            ValueKind::Nil => "nil"@,
            ValueKind::Boolean => "boolean"@,
            ValueKind::Integer => "integer"@,
            ValueKind::Float => "number"@,
            ValueKind::Str => "string"@,
            ValueKind::Table => "table"@,
            ValueKind::Function => "function"@,
            ValueKind::Thread => "thread"@,
            ValueKind::UserData => "userdata"@,
            ValueKind::Error => "error"@,
        }
    }

    /// Whether values of this kind are plain scalars or strings.
    pub fn primitive(self) -> (b: bool)
        ensures
            b == self.is_primitive(),
    {
        match self {
            ValueKind::Nil
            | ValueKind::Boolean
            | ValueKind::Integer
            | ValueKind::Float
            | ValueKind::Str => true,
            _ => false,
        }
    }

    /// The name of the kind, as text.
    pub fn name_text(self) -> (s: String)
        ensures
            s@ == self.name(),
    {
        match self {
            ValueKind::Nil => String::from_str("nil"),
            ValueKind::Boolean => String::from_str("boolean"),
            ValueKind::Integer => String::from_str("integer"),
            ValueKind::Float => String::from_str("number"),
            ValueKind::Str => String::from_str("string"),
            ValueKind::Table => String::from_str("table"),
            ValueKind::Function => String::from_str("function"),
            ValueKind::Thread => String::from_str("thread"),
            ValueKind::UserData => String::from_str("userdata"),
            ValueKind::Error => String::from_str("error"),
        }
    }
}

impl GuestValue {
    /// The kind of the value.
    pub fn kind(&self) -> (k: ValueKind)
        ensures
            k == self@.kind(),
    {
        match self {
            GuestValue::Nil => ValueKind::Nil,
            GuestValue::Boolean(_) => ValueKind::Boolean,
            GuestValue::Integer(_) => ValueKind::Integer,
            GuestValue::Float(_) => ValueKind::Float,
            GuestValue::Text(_) => ValueKind::Str,
            GuestValue::Bytes(_) => ValueKind::Str,
            GuestValue::Sequence(_) => ValueKind::Table,
            GuestValue::Record(_) => ValueKind::Table,
            GuestValue::Function => ValueKind::Function,
            GuestValue::Thread => ValueKind::Thread,
            GuestValue::UserData => ValueKind::UserData,
            GuestValue::Error(_) => ValueKind::Error,
        }
    }

    /// The text that stands for the value in captured output.
    pub fn render(&self) -> (s: String)
        ensures
            s@ == self@.rendered(),
    {
        match self {
            GuestValue::Nil => String::from_str("nil"),
            GuestValue::Boolean(b) => if *b {
                String::from_str("true")
            } else {
                String::from_str("false")
            },
            GuestValue::Integer(i) => decimal_text(*i),
            GuestValue::Float(t) => t.clone(),
            GuestValue::Text(t) => t.clone(),
            GuestValue::Bytes(_) => String::from_str("<invalid utf8>"),
            GuestValue::Sequence(_) => String::from_str("table"),
            GuestValue::Record(_) => String::from_str("table"),
            GuestValue::Function => String::from_str("function"),
            GuestValue::Thread => String::from_str("thread"),
            GuestValue::UserData => String::from_str("userdata"),
            GuestValue::Error(t) => t.clone(),
        }
    }
}

impl Clone for GuestValue {
    /// A deep copy.
    fn clone(&self) -> (r: GuestValue)
        ensures
            r@ == self@,
        decreases self,
    {
        match self {
            GuestValue::Nil => GuestValue::Nil,
            GuestValue::Boolean(b) => GuestValue::Boolean(*b),
            GuestValue::Integer(i) => GuestValue::Integer(*i),
            GuestValue::Float(t) => GuestValue::Float(t.clone()),
            GuestValue::Text(t) => GuestValue::Text(t.clone()),
            GuestValue::Bytes(b) => GuestValue::Bytes(b.clone()),
            GuestValue::Sequence(items) => {
                let mut out: Vec<GuestValue> = Vec::new();
                let mut i: usize = 0;
                while i < items.len()
                    invariant
                        i <= items.len(),
                        out.len() == i,
                        *self == GuestValue::Sequence(*items),
                        forall|j: int| 0 <= j < i ==> out@[j]@ == items@[j]@,
                    decreases items.len() - i,
                {
                    assert(decreases_to!(*self => self->Sequence_0));
                    assert(decreases_to!(*items => items[i as int]));
                    out.push(items[i].clone());
                    i += 1;
                }
                let r = GuestValue::Sequence(out);
                assert(r@->Sequence_0 =~= self@->Sequence_0);
                r
            },
            GuestValue::Record(entries) => {
                let mut out: Vec<GuestEntry> = Vec::new();
                let mut i: usize = 0;
                while i < entries.len()
                    invariant
                        i <= entries.len(),
                        out.len() == i,
                        *self == GuestValue::Record(*entries),
                        forall|j: int|
                            0 <= j < i ==> out@[j].key@ == entries@[j].key@ && out@[j].item@
                                == entries@[j].item@,
                    decreases entries.len() - i,
                {
                    assert(decreases_to!(*self => self->Record_0));
                    assert(decreases_to!(*entries => entries[i as int]));
                    let key = entries[i].key.clone();
                    let item = entries[i].item.clone();
                    out.push(GuestEntry { key, item });
                    i += 1;
                }
                let r = GuestValue::Record(out);
                assert(r@->Record_0 =~= self@->Record_0);
                r
            },
            GuestValue::Function => GuestValue::Function,
            GuestValue::Thread => GuestValue::Thread,
            GuestValue::UserData => GuestValue::UserData,
            GuestValue::Error(t) => GuestValue::Error(t.clone()),
        }
    }
}

} // verus!
