//! Values as they cross between the caller and the host.
use vstd::prelude::*;

verus! {

/// A value that is handed to the provider or comes back from it: what a JSON
/// text can say.
#[derive(Debug, PartialEq, Eq)]
pub enum Value {
    Null,
    Bool(bool),
    /// A number that is a whole number in the range of `i64`.
    Integer(i64),
    /// Any other number, kept as the text of its literal. It is carried, never
    /// read.
    Decimal(String),
    String(String),
    /// An ordered sequence.
    Array(Vec<Value>),
    /// Named members, in the order in which they were written.
    Object(Vec<(String, Value)>),
}

/// The mathematical model of a [`Value`].
pub enum Json {
    Null,
    Bool(bool),
    Integer(int),
    Decimal(Seq<char>),
    String(Seq<char>),
    Array(Seq<Json>),
    Object(Seq<(Seq<char>, Json)>),
}

/// What a value stands for. The view of a [`Value`] is this function.
pub open spec fn model(value: Value) -> Json
    decreases value,
{
    match value {
        Value::Null => Json::Null,
        Value::Bool(b) => Json::Bool(b),
        Value::Integer(n) => Json::Integer(n as int),
        Value::Decimal(literal) => Json::Decimal(literal@),
        Value::String(text) => Json::String(text@),
        Value::Array(items) => Json::Array(
            Seq::new(
                items@.len(),
                |i: int|
                    if 0 <= i < items@.len() {
                        model(items@[i])
                    } else {
                        Json::Null
                    },
            ),
        ),
        Value::Object(members) => Json::Object(
            Seq::new(
                members@.len(),
                |i: int|
                    if 0 <= i < members@.len() {
                        (members@[i].0@, model(members@[i].1))
                    } else {
                        (Seq::empty(), Json::Null)
                    },
            ),
        ),
    }
}

impl View for Value {
    type V = Json;

    open spec fn view(&self) -> Json {
        model(*self)
    }
}

impl Json {
    /// The items of a sequence, in order; of any other value, none.
    pub open spec fn items(self) -> Seq<Json> {
        match self {
            Json::Array(items) => items,
            _ => Seq::empty(),
        }
    }

    /// The member of an object that goes by `name`; `None` where there is no
    /// such member or the value is no object.
    pub open spec fn member(self, name: Seq<char>) -> Option<Json> {
        match self {
            Json::Object(members) => last_named(members, name),
            _ => None,
        }
    }
}

/// The value of the last of `members` that goes by `name`. Where a name is
/// written twice the later one counts, as it does when a JSON text is read.
pub open spec fn last_named(members: Seq<(Seq<char>, Json)>, name: Seq<char>) -> Option<Json>
    decreases members.len(),
{
    if members.len() == 0 {
        None
    } else if members.last().0 == name {
        Some(members.last().1)
    } else {
        last_named(members.drop_last(), name)
    }
}

impl Clone for Value {
    /// A copy that stands for the same value.
    fn clone(&self) -> (copy: Value)
        ensures
            copy@ == self@,
        decreases self,
    {
        match self {
            Value::Null => Value::Null,
            Value::Bool(b) => Value::Bool(*b),
            Value::Integer(n) => Value::Integer(*n),
            Value::Decimal(literal) => Value::Decimal(literal.clone()),
            Value::String(text) => Value::String(text.clone()),
            Value::Array(items) => {
                let mut copies: Vec<Value> = Vec::new();
                let mut i: usize = 0;
                while i < items.len()
                    invariant
                        i <= items.len(),
                        copies.len() == i,
                        self == Value::Array(*items),
                        forall|k: int| 0 <= k < i ==> copies@[k]@ == items@[k]@,
                    decreases items.len() - i,
                {
                    let item = &items[i];
                    assert(decreases_to!(self => self->Array_0));
                    assert(decreases_to!(*items => items[i as int]));
                    copies.push(item.clone());
                    i += 1;
                }
                let copy = Value::Array(copies);
                assert(copy@->Array_0 =~= self@->Array_0);
                copy
            },
            Value::Object(members) => {
                let mut copies: Vec<(String, Value)> = Vec::new();
                let mut i: usize = 0;
                while i < members.len()
                    invariant
                        i <= members.len(),
                        copies.len() == i,
                        self == Value::Object(*members),
                        forall|k: int|
                            0 <= k < i ==> copies@[k].0@ == members@[k].0@ && copies@[k].1@
                                == members@[k].1@,
                    decreases members.len() - i,
                {
                    let member = &members[i];
                    assert(decreases_to!(self => self->Object_0));
                    assert(decreases_to!(*members => members[i as int]));
                    copies.push((member.0.clone(), member.1.clone()));
                    i += 1;
                }
                let copy = Value::Object(copies);
                assert(copy@->Object_0 =~= self@->Object_0);
                copy
            },
        }
    }
}

impl Value {
    /// Whether the value is an ordered sequence.
    pub fn is_array(&self) -> (yes: bool)
        ensures
            yes == (self@ is Array),
    {
        match self {
            Value::Array(_) => true,
            _ => false,
        }
    }

    /// The member of an object that goes by `name`.
    pub fn member(&self, name: &str) -> (found: Option<&Value>)
        ensures
            match found {
                Some(value) => self@.member(name@) == Some(value@),
                None => self@.member(name@) is None,
            },
    {
        match self {
            Value::Object(members) => {
                let wanted = name.to_owned();
                let ghost all = self@->Object_0;
                let mut i: usize = members.len();
                assert(all.take(i as int) =~= all);
                while i > 0
                    invariant
                        i <= members.len(),
                        wanted@ == name@,
                        self@ == Json::Object(all),
                        all.len() == members.len(),
                        forall|k: int|
                            0 <= k < all.len() ==> all[k] == (members@[k].0@, members@[k].1@),
                        last_named(all, name@) == last_named(all.take(i as int), name@),
                    decreases i,
                {
                    i -= 1;
                    assert(all.take(i + 1).last() == all[i as int]);
                    assert(all.take(i + 1).drop_last() =~= all.take(i as int));
                    if members[i].0 == wanted {
                        return Some(&members[i].1);
                    }
                }
                None
            },
            _ => None,
        }
    }

    /// The value as the sequence that a request carries: a sequence stays as
    /// it is, and anything else gives way to the empty sequence.
    pub fn into_sequence(self) -> (sequence: Value)
        ensures
            sequence@ == Json::Array(self@.items()),
    {
        if self.is_array() {
            self
        } else {
            let sequence = Value::Array(Vec::new());
            assert(sequence@->Array_0 =~= Seq::empty());
            sequence
        }
    }
}

} // verus!


