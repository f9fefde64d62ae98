use crate::text::str_eq;
use vstd::prelude::*;

verus! {

/// A JSON number: a non-negative integer, a negative integer, or the decimal text of a
/// number that is not an integer.
#[derive(Debug, PartialEq)]
pub enum Number {
    PosInt(u64),
    NegInt(i64),
    Float(String),
}

/// A number as mathematical data.
pub enum NumberView {
    PosInt(u64),
    NegInt(i64),
    Float(Seq<char>),
}

impl View for Number {
    type V = NumberView;

    open spec fn view(&self) -> NumberView {
        match self {
            Number::PosInt(n) => NumberView::PosInt(*n),
            Number::NegInt(n) => NumberView::NegInt(*n),
            Number::Float(t) => NumberView::Float(t@),
        }
    }
}

impl Clone for Number {
    fn clone(&self) -> (r: Number)
        ensures
            r@ == self@,
    {
        match self {
            Number::PosInt(n) => Number::PosInt(*n),
            Number::NegInt(n) => Number::NegInt(*n),
            Number::Float(t) => Number::Float(t.clone()),
        }
    }
}

/// A JSON value held as plain data. An object keeps its members in the order in which they
/// were written; looking a key up finds the first member that has it.
#[derive(Debug, PartialEq)]
pub enum Value {
    Null,
    Bool(bool),
    Number(Number),
    String(String),
    Array(Vec<Value>),
    Object(Vec<(String, Value)>),
}

/// A value as mathematical data.
pub enum ValueView {
    Null,
    Bool(bool),
    Number(NumberView),
    String(Seq<char>),
    Array(Seq<ValueView>),
    Object(Seq<(Seq<char>, ValueView)>),
}

/// The value of the first member of `members` whose key is `key`.
pub open spec fn lookup(members: Seq<(Seq<char>, ValueView)>, key: Seq<char>) -> Option<ValueView>
    decreases members.len(),
{
    if members.len() == 0 {
        None
    } else if members[0].0 == key {
        Some(members[0].1)
    } else {
        lookup(members.drop_first(), key)
    }
}

impl ValueView {
    /// The member `key` of an object; nothing for a value that is no object.
    pub open spec fn member(self, key: Seq<char>) -> Option<ValueView> {
        match self {
            ValueView::Object(members) => lookup(members, key),
            _ => None,
        }
    }

    /// The characters of a string value.
    pub open spec fn text(self) -> Option<Seq<char>> {
        match self {
            ValueView::String(s) => Some(s),
            _ => None,
        }
    }

    /// The truth value of a boolean value.
    pub open spec fn flag(self) -> Option<bool> {
        match self {
            ValueView::Bool(b) => Some(b),
            _ => None,
        }
    }

    /// The string held under `key`, if the member is there and is a string.
    pub open spec fn text_member(self, key: Seq<char>) -> Option<Seq<char>> {
        match self.member(key) {
            Some(v) => v.text(),
            None => None,
        }
    }

    /// The member `key` unless it is absent or `null`.
    pub open spec fn present_member(self, key: Seq<char>) -> Option<ValueView> {
        match self.member(key) {
            Some(ValueView::Null) => None,
            other => other,
        }
    }
}

/// The views of the items of an array.
pub open spec fn items_view(items: Seq<Value>) -> Seq<ValueView> {
    Seq::new(items.len(), |i: int| items[i]@)
}

/// The views of the members of an object.
pub open spec fn members_view(members: Seq<(String, Value)>) -> Seq<(Seq<char>, ValueView)> {
    Seq::new(members.len(), |i: int| (members[i].0@, members[i].1@))
}

impl Value {
    /// The value as mathematical data.
    pub open spec fn model(&self) -> ValueView
        decreases self,
    {
        match self {
            Value::Null => ValueView::Null,
            Value::Bool(b) => ValueView::Bool(*b),
            Value::Number(n) => ValueView::Number(n@),
            Value::String(s) => ValueView::String(s@),
            Value::Array(items) => ValueView::Array(
                Seq::new(
                    items@.len(),
                    |i: int|
                        if 0 <= i < items@.len() {
                            items[i].model()
                        } else {
                            ValueView::Null
                        },
                ),
            ),
            Value::Object(members) => ValueView::Object(
                Seq::new(
                    members@.len(),
                    |i: int|
                        if 0 <= i < members@.len() {
                            (members[i].0@, members[i].1.model())
                        } else {
                            (Seq::empty(), ValueView::Null)
                        },
                ),
            ),
        }
    }
}

impl View for Value {
    type V = ValueView;

    open spec fn view(&self) -> ValueView {
        self.model()
    }
}

/// The view of an optional value.
pub open spec fn opt_value(o: Option<Value>) -> Option<ValueView> {
    match o {
        Some(v) => Some(v@),
        None => None,
    }
}

/// A copy of an optional value.
pub fn clone_opt_value(o: &Option<Value>) -> (r: Option<Value>)
    ensures
        opt_value(r) == opt_value(*o),
{
    match o {
        Some(v) => Some(v.clone()),
        None => None,
    }
}

/// An array's view holds the views of its items.
pub proof fn lemma_array_view(items: Vec<Value>)
    ensures
        Value::Array(items)@ == ValueView::Array(items_view(items@)),
{
    assert(Value::Array(items)@->Array_0 =~= items_view(items@));
}

/// An object's view holds the keys and the views of its members.
pub proof fn lemma_object_view(members: Vec<(String, Value)>)
    ensures
        Value::Object(members)@ == ValueView::Object(members_view(members@)),
{
    assert(Value::Object(members)@->Object_0 =~= members_view(members@));
}

/// Looking up from position `i` on either finds `members[i]` or goes on from `i + 1`.
proof fn lemma_lookup_step(members: Seq<(Seq<char>, ValueView)>, key: Seq<char>, i: int)
    requires
        0 <= i < members.len(),
    ensures
        lookup(members.skip(i), key) == if members[i].0 == key {
            Some(members[i].1)
        } else {
            lookup(members.skip(i + 1), key)
        },
{
    assert(members.skip(i).drop_first() =~= members.skip(i + 1));
}

/// The first member of `members` with the key `key`.
fn find_member<'a>(members: &'a Vec<(String, Value)>, key: &str) -> (r: Option<&'a Value>)
    ensures
        match r {
            Some(v) => lookup(members_view(members@), key@) == Some(v@),
            None => lookup(members_view(members@), key@) is None,
        },
{
    let ghost all = members_view(members@);
    let mut i: usize = 0;
    assert(all.skip(0) =~= all);
    while i < members.len()
        invariant
            i <= members.len(),
            all == members_view(members@),
            lookup(all, key@) == lookup(all.skip(i as int), key@),
        decreases members.len() - i,
    {
        proof {
            lemma_lookup_step(all, key@, i as int);
        }
        if str_eq(members[i].0.as_str(), key) {
            return Some(&members[i].1);
        }
        i += 1;
    }
    assert(all.skip(i as int).len() == 0);
    None
}

impl Value {
    /// True for `null`.
    pub fn is_null(&self) -> (r: bool)
        ensures
            r == (self@ is Null),
    {
        match self {
            Value::Null => true,
            _ => false,
        }
    }

    /// The characters of a string value.
    pub fn as_str(&self) -> (r: Option<&str>)
        ensures
            match r {
                Some(s) => self@.text() == Some(s@),
                None => self@.text() is None,
            },
    {
        match self {
            Value::String(s) => Some(s.as_str()),
            _ => None,
        }
    }

    /// The truth value of a boolean value.
    pub fn as_bool(&self) -> (r: Option<bool>)
        ensures
            r == self@.flag(),
    {
        match self {
            Value::Bool(b) => Some(*b),
            _ => None,
        }
    }

    /// The member `key` of an object; nothing for a value that is no object.
    pub fn get(&self, key: &str) -> (r: Option<&Value>)
        ensures
            match r {
                Some(v) => self@.member(key@) == Some(v@),
                None => self@.member(key@) is None,
            },
    {
        match self {
            Value::Object(members) => {
                proof {
                    lemma_object_view(*members);
                }
                find_member(members, key)
            },
            _ => None,
        }
    }

    /// The string held under `key`, if the member is there and is a string.
    pub fn get_text(&self, key: &str) -> (r: Option<&str>)
        ensures
            match r {
                Some(s) => self@.text_member(key@) == Some(s@),
                None => self@.text_member(key@) is None,
            },
    {
        match self.get(key) {
            Some(v) => v.as_str(),
            None => None,
        }
    }

    /// The member `key` unless it is absent or `null`.
    pub fn get_present(&self, key: &str) -> (r: Option<&Value>)
        ensures
            match r {
                Some(v) => self@.present_member(key@) == Some(v@),
                None => self@.present_member(key@) is None,
            },
    {
        match self.get(key) {
            Some(v) => if v.is_null() {
                None
            } else {
                Some(v)
            },
            None => None,
        }
    }

    /// The string value that holds the characters of `text`.
    pub fn text(text: &str) -> (r: Value)
        ensures
            r@ == ValueView::String(text@),
    {
        Value::String(text.to_owned())
    }

    /// The object that holds `members`, in their order.
    pub fn object(members: Vec<(String, Value)>) -> (r: Value)
        ensures
            r@ == ValueView::Object(members_view(members@)),
    {
        proof {
            lemma_object_view(members);
        }
        Value::Object(members)
    }

    /// An object without members.
    pub fn empty_object() -> (r: Value)
        ensures
            r@ == ValueView::Object(Seq::empty()),
    {
        let members: Vec<(String, Value)> = Vec::new();
        proof {
            lemma_object_view(members);
            assert(members_view(members@) =~= Seq::empty());
        }
        Value::Object(members)
    }
}

/// Adds the member `key`: `value` at the end of `members`.
pub fn push_member(members: &mut Vec<(String, Value)>, key: &str, value: Value)
    ensures
        members_view(final(members)@) == members_view(old(members)@).push((key@, value@)),
{
    members.push((key.to_owned(), value));
    assert(members_view(members@) =~= members_view(old(members)@).push((key@, value@)));
}

/// The value of a member found by its place: the member at `i` has the key and no member
/// before it has.
pub proof fn lemma_lookup_at(members: Seq<(Seq<char>, ValueView)>, key: Seq<char>, i: int)
    requires
        0 <= i < members.len(),
        members[i].0 == key,
        forall|j: int| 0 <= j < i ==> members[j].0 != key,
    ensures
        lookup(members, key) == Some(members[i].1),
    decreases i,
{
    if i > 0 {
        let rest = members.drop_first();
        assert(rest[i - 1] == members[i]);
        assert forall|j: int| 0 <= j < i - 1 implies rest[j].0 != key by {
            assert(rest[j] == members[j + 1]);
        }
        lemma_lookup_at(rest, key, i - 1);
    }
}

impl Clone for Value {
    fn clone(&self) -> (r: Value)
        ensures
            r@ == self@,
        decreases self,
    {
        match self {
            Value::Null => Value::Null,
            Value::Bool(b) => Value::Bool(*b),
            Value::Number(n) => Value::Number(n.clone()),
            Value::String(s) => Value::String(s.clone()),
            Value::Array(items) => {
                let mut out: Vec<Value> = Vec::new();
                let mut i: usize = 0;
                while i < items.len()
                    invariant
                        i <= items.len(),
                        out@.len() == i,
                        *self == Value::Array(*items),
                        forall|j: int| 0 <= j < i ==> out@[j]@ == items@[j]@,
                    decreases items.len() - i,
                {
                    let item = &items[i];
                    assert(decreases_to!(*items => items[i as int]));
                    assert(decreases_to!(*self => self->Array_0));
                    out.push(item.clone());
                    i += 1;
                }
                proof {
                    lemma_array_view(out);
                    lemma_array_view(*items);
                    assert(items_view(out@) =~= items_view(items@));
                }
                Value::Array(out)
            },
            Value::Object(members) => {
                let mut out: Vec<(String, Value)> = Vec::new();
                let mut i: usize = 0;
                while i < members.len()
                    invariant
                        i <= members.len(),
                        out@.len() == i,
                        *self == Value::Object(*members),
                        forall|j: int|
                            0 <= j < i ==> out@[j].0@ == members@[j].0@ && out@[j].1@
                                == members@[j].1@,
                    decreases members.len() - i,
                {
                    let member = &members[i];
                    assert(decreases_to!(*members => members[i as int]));
                    assert(decreases_to!(*self => self->Object_0));
                    out.push((member.0.clone(), member.1.clone()));
                    i += 1;
                }
                proof {
                    lemma_object_view(out);
                    lemma_object_view(*members);
                    assert(members_view(out@) =~= members_view(members@));
                }
                Value::Object(out)
            },
        }
    }
}

} // verus!
