//! Structured documents: a model of JSON values, the executable tree that
//! carries one, and the reading and writing of JSON text.
use crate::text::{chars_of, parse_unsigned, same_text, unsigned_value};
use vstd::prelude::*;

verus! {

/// A JSON document as a mathematical value. A number is held as its decimal
/// text; the members of an object are kept in order.
pub enum Json {
    Null,
    Bool(bool),
    Number(Seq<char>),
    Text(Seq<char>),
    Array(Seq<Json>),
    Object(Seq<(Seq<char>, Json)>),
}

/// The value of the last of the first `n` members of `members` that is
/// named `key`.
pub open spec fn lookup_before(members: Seq<(Seq<char>, Json)>, key: Seq<char>, n: int) -> Option<
    Json,
>
    decreases n,
{
    if n <= 0 {
        None
    } else if members[n - 1].0 == key {
        Some(members[n - 1].1)
    } else {
        lookup_before(members, key, n - 1)
    }
}

/// The value of the last member of `members` named `key`: where a name
/// stands twice, the later member counts.
pub open spec fn lookup(members: Seq<(Seq<char>, Json)>, key: Seq<char>) -> Option<Json> {
    lookup_before(members, key, members.len() as int)
}

/// Looking a name up among the first `n` members gives the same in two
/// sequences that agree on them.
pub proof fn lemma_lookup_prefix(
    a: Seq<(Seq<char>, Json)>,
    b: Seq<(Seq<char>, Json)>,
    key: Seq<char>,
    n: int,
)
    requires
        0 <= n <= a.len(),
        n <= b.len(),
        forall|i: int| 0 <= i < n ==> a[i] == b[i],
    ensures
        lookup_before(a, key, n) == lookup_before(b, key, n),
    decreases n,
{
    if n > 0 {
        lemma_lookup_prefix(a, b, key, n - 1);
    }
}

impl Json {
    /// The member `key` of an object; `None` for anything but an object.
    pub open spec fn field(self, key: Seq<char>) -> Option<Json> {
        match self {
            Json::Object(members) => lookup(members, key),
            _ => None,
        }
    }

    /// The text of a string member.
    pub open spec fn text_field(self, key: Seq<char>) -> Option<Seq<char>> {
        match self.field(key) {
            Some(Json::Text(s)) => Some(s),
            _ => None,
        }
    }

    /// The decimal text of a number member.
    pub open spec fn number_field(self, key: Seq<char>) -> Option<Seq<char>> {
        match self.field(key) {
            Some(Json::Number(n)) => Some(n),
            _ => None,
        }
    }

    /// A number member that is a whole number from 0 to 65535.
    pub open spec fn port_field(self, key: Seq<char>) -> Option<u16> {
        match self.field(key) {
            Some(Json::Number(n)) => match unsigned_value(n, 65535) {
                Some(v) => Some(v as u16),
                None => None,
            },
            _ => None,
        }
    }

    /// A boolean member.
    pub open spec fn bool_field(self, key: Seq<char>) -> Option<bool> {
        match self.field(key) {
            Some(Json::Bool(b)) => Some(b),
            _ => None,
        }
    }
}

/// One member of an object.
#[derive(Debug, PartialEq, Eq)]
pub struct Member {
    pub key: String,
    pub value: JsonValue,
}

/// A JSON document in memory.
#[derive(Debug, PartialEq, Eq)]
pub enum JsonValue {
    Null,
    Bool(bool),
    /// A number, as its decimal text.
    Number(String),
    Text(String),
    Array(Vec<JsonValue>),
    Object(Vec<Member>),
}

impl JsonValue {
    /// The document that the tree holds.
    pub open spec fn model(self) -> Json
        decreases self,
    {
        match self {
            JsonValue::Null => Json::Null,
            JsonValue::Bool(b) => Json::Bool(b),
            JsonValue::Number(n) => Json::Number(n@),
            JsonValue::Text(s) => Json::Text(s@),
            JsonValue::Array(items) => Json::Array(
                Seq::new(
                    items@.len(),
                    |i: int|
                        if 0 <= i < items@.len() {
                            items@[i].model()
                        } else {
                            Json::Null
                        },
                ),
            ),
            JsonValue::Object(members) => Json::Object(
                Seq::new(
                    members@.len(),
                    |i: int|
                        if 0 <= i < members@.len() {
                            (members@[i].key@, members@[i].value.model())
                        } else {
                            (Seq::<char>::empty(), Json::Null)
                        },
                ),
            ),
        }
    }
}

impl View for JsonValue {
    type V = Json;

    open spec fn view(&self) -> Json {
        self.model()
    }
}

impl View for Member {
    type V = (Seq<char>, Json);

    open spec fn view(&self) -> (Seq<char>, Json) {
        (self.key@, self.value@)
    }
}

/// The models of a run of members.
pub open spec fn members_view(members: Seq<Member>) -> Seq<(Seq<char>, Json)> {
    Seq::new(members.len(), |i: int| members[i]@)
}

/// The models of a run of values.
pub open spec fn values_view(items: Seq<JsonValue>) -> Seq<Json> {
    Seq::new(items.len(), |i: int| items[i]@)
}

/// The document of an object is the object of its members' documents.
pub proof fn lemma_object_view(members: Vec<Member>)
    ensures
        JsonValue::Object(members)@ == Json::Object(members_view(members@)),
{
    assert(JsonValue::Object(members)@->Object_0 =~= members_view(members@));
}

/// The document of an array is the array of its items' documents.
pub proof fn lemma_array_view(items: Vec<JsonValue>)
    ensures
        JsonValue::Array(items)@ == Json::Array(values_view(items@)),
{
    assert(JsonValue::Array(items)@->Array_0 =~= values_view(items@));
}

impl JsonValue {
    /// A copy of the document.
    pub fn duplicate(&self) -> (r: JsonValue)
        ensures
            r@ == self@,
        decreases self,
    {
        match self {
            JsonValue::Null => JsonValue::Null,
            JsonValue::Bool(b) => JsonValue::Bool(*b),
            JsonValue::Number(n) => JsonValue::Number(n.clone()),
            JsonValue::Text(s) => JsonValue::Text(s.clone()),
            JsonValue::Array(items) => {
                let mut out: Vec<JsonValue> = Vec::new();
                let mut i: usize = 0;
                while i < items.len()
                    invariant
                        i <= items.len(),
                        *self is Array,
                        self->Array_0 == *items,
                        out@.len() == i,
                        forall|j: int| 0 <= j < i ==> out@[j]@ == items@[j]@,
                    decreases items.len() - i,
                {
                    proof {
                        vstd::std_specs::vec::axiom_vec_index_decreases(*items, i as int);
                    }
                    let item = items[i].duplicate();
                    out.push(item);
                    i += 1;
                }
                proof {
                    lemma_array_view(out);
                    lemma_array_view(*items);
                    assert(values_view(out@) =~= values_view(items@));
                }
                JsonValue::Array(out)
            },
            JsonValue::Object(members) => {
                let mut out: Vec<Member> = Vec::new();
                let mut i: usize = 0;
                while i < members.len()
                    invariant
                        i <= members.len(),
                        *self is Object,
                        self->Object_0 == *members,
                        out@.len() == i,
                        forall|j: int|
                            0 <= j < i ==> out@[j].key@ == members@[j].key@ && out@[j].value@
                                == members@[j].value@,
                    decreases members.len() - i,
                {
                    proof {
                        vstd::std_specs::vec::axiom_vec_index_decreases(*members, i as int);
                    }
                    let value = members[i].value.duplicate();
                    out.push(Member { key: members[i].key.clone(), value });
                    i += 1;
                }
                proof {
                    lemma_object_view(out);
                    lemma_object_view(*members);
                    assert(members_view(out@) =~= members_view(members@));
                }
                JsonValue::Object(out)
            },
        }
    }

    /// Whether two documents are the same.
    pub fn same_as(&self, other: &JsonValue) -> (r: bool)
        ensures
            r == (self@ == other@),
        decreases self,
    {
        match self {
            JsonValue::Null => match other {
                JsonValue::Null => true,
                _ => false,
            },
            JsonValue::Bool(a) => match other {
                JsonValue::Bool(b) => *a == *b,
                _ => false,
            },
            JsonValue::Number(a) => match other {
                JsonValue::Number(b) => same_text(a.as_str(), b.as_str()),
                _ => false,
            },
            JsonValue::Text(a) => match other {
                JsonValue::Text(b) => same_text(a.as_str(), b.as_str()),
                _ => false,
            },
            JsonValue::Array(a) => match other {
                JsonValue::Array(b) => {
                    proof {
                        lemma_array_view(*a);
                        lemma_array_view(*b);
                    }
                    if a.len() != b.len() {
                        assert(values_view(a@).len() != values_view(b@).len());
                        return false;
                    }
                    let mut i: usize = 0;
                    while i < a.len()
                        invariant
                            i <= a.len(),
                            a.len() == b.len(),
                            *self is Array,
                            self->Array_0 == *a,
                            self@ == Json::Array(values_view(a@)),
                            other@ == Json::Array(values_view(b@)),
                            forall|j: int| 0 <= j < i ==> a@[j]@ == b@[j]@,
                        decreases a.len() - i,
                    {
                        proof {
                            vstd::std_specs::vec::axiom_vec_index_decreases(*a, i as int);
                        }
                        if !a[i].same_as(&b[i]) {
                            assert(values_view(a@)[i as int] != values_view(b@)[i as int]);
                            return false;
                        }
                        i += 1;
                    }
                    assert(values_view(a@) =~= values_view(b@));
                    true
                },
                _ => false,
            },
            JsonValue::Object(a) => match other {
                JsonValue::Object(b) => {
                    proof {
                        lemma_object_view(*a);
                        lemma_object_view(*b);
                    }
                    if a.len() != b.len() {
                        assert(members_view(a@).len() != members_view(b@).len());
                        return false;
                    }
                    let mut i: usize = 0;
                    while i < a.len()
                        invariant
                            i <= a.len(),
                            a.len() == b.len(),
                            *self is Object,
                            self->Object_0 == *a,
                            self@ == Json::Object(members_view(a@)),
                            other@ == Json::Object(members_view(b@)),
                            forall|j: int| 0 <= j < i ==> a@[j]@ == b@[j]@,
                        decreases a.len() - i,
                    {
                        proof {
                            vstd::std_specs::vec::axiom_vec_index_decreases(*a, i as int);
                        }
                        if !same_text(a[i].key.as_str(), b[i].key.as_str()) || !a[i].value.same_as(
                            &b[i].value,
                        ) {
                            assert(members_view(a@)[i as int] != members_view(b@)[i as int]);
                            return false;
                        }
                        i += 1;
                    }
                    assert(members_view(a@) =~= members_view(b@));
                    true
                },
                _ => false,
            },
        }
    }

    /// The member `key` of an object, as `serde_json::Value::get` finds it.
    pub fn get(&self, key: &str) -> (r: Option<&JsonValue>)
        ensures
            match r {
                Some(v) => self@.field(key@) == Some(v@),
                None => self@.field(key@) is None,
            },
    {
        match self {
            JsonValue::Object(members) => {
                proof {
                    lemma_object_view(*members);
                }
                let ghost all = members_view(members@);
                let mut i: usize = members.len();
                while i > 0
                    invariant
                        i <= members.len(),
                        all == members_view(members@),
                        self@ == Json::Object(all),
                        lookup(all, key@) == lookup_before(all, key@, i as int),
                    decreases i,
                {
                    i -= 1;
                    if same_text(members[i].key.as_str(), key) {
                        return Some(&members[i].value);
                    }
                }
                None
            },
            _ => None,
        }
    }

    /// The text of a string.
    pub fn as_text(&self) -> (r: Option<&String>)
        ensures
            match r {
                Some(s) => self@ == Json::Text(s@),
                None => !(self@ is Text),
            },
    {
        match self {
            JsonValue::Text(s) => Some(s),
            _ => None,
        }
    }

    /// The decimal text of a number.
    pub fn as_number(&self) -> (r: Option<&String>)
        ensures
            match r {
                Some(s) => self@ == Json::Number(s@),
                None => !(self@ is Number),
            },
    {
        match self {
            JsonValue::Number(s) => Some(s),
            _ => None,
        }
    }

    /// The value of a boolean.
    pub fn as_bool(&self) -> (r: Option<bool>)
        ensures
            match r {
                Some(b) => self@ == Json::Bool(b),
                None => !(self@ is Bool),
            },
    {
        match self {
            JsonValue::Bool(b) => Some(*b),
            _ => None,
        }
    }

    /// The items of an array.
    pub fn as_array(&self) -> (r: Option<&Vec<JsonValue>>)
        ensures
            match r {
                Some(items) => self@ == Json::Array(values_view(items@)),
                None => !(self@ is Array),
            },
    {
        match self {
            JsonValue::Array(items) => {
                proof {
                    lemma_array_view(*items);
                }
                Some(items)
            },
            _ => None,
        }
    }

    /// The members of an object.
    pub fn as_object(&self) -> (r: Option<&Vec<Member>>)
        ensures
            match r {
                Some(members) => self@ == Json::Object(members_view(members@)),
                None => !(self@ is Object),
            },
    {
        match self {
            JsonValue::Object(members) => {
                proof {
                    lemma_object_view(*members);
                }
                Some(members)
            },
            _ => None,
        }
    }

    /// The string member `key`.
    pub fn text_field(&self, key: &str) -> (r: Option<&String>)
        ensures
            match r {
                Some(s) => self@.text_field(key@) == Some(s@),
                None => self@.text_field(key@) is None,
            },
    {
        match self.get(key) {
            Some(v) => v.as_text(),
            None => None,
        }
    }

    /// The number member `key`, as its decimal text.
    pub fn number_field(&self, key: &str) -> (r: Option<&String>)
        ensures
            match r {
                Some(s) => self@.number_field(key@) == Some(s@),
                None => self@.number_field(key@) is None,
            },
    {
        match self.get(key) {
            Some(v) => v.as_number(),
            None => None,
        }
    }

    /// The boolean member `key`.
    pub fn bool_field(&self, key: &str) -> (r: Option<bool>)
        ensures
            r == self@.bool_field(key@),
    {
        match self.get(key) {
            Some(v) => v.as_bool(),
            None => None,
        }
    }

    /// The member `key` where it is a whole number from 0 to 65535.
    pub fn port_field(&self, key: &str) -> (r: Option<u16>)
        ensures
            r == self@.port_field(key@),
    {
        match self.number_field(key) {
            Some(n) => {
                let digits = chars_of(n.as_str());
                assert(digits@.subrange(0, digits.len() as int) =~= n@);
                match parse_unsigned(&digits, 0, 65535) {
                    Some(v) => Some(v as u16),
                    None => None,
                }
            },
            None => None,
        }
    }
}

/// The first `n` members of `members` without those named `a`, `b` or `c`.
pub open spec fn without_keys_before(
    members: Seq<(Seq<char>, Json)>,
    a: Seq<char>,
    b: Seq<char>,
    c: Seq<char>,
    n: int,
) -> Seq<(Seq<char>, Json)>
    decreases n,
{
    if n <= 0 {
        Seq::empty()
    } else {
        let rest = without_keys_before(members, a, b, c, n - 1);
        let key = members[n - 1].0;
        if key == a || key == b || key == c {
            rest
        } else {
            rest.push(members[n - 1])
        }
    }
}

/// `members` without those named `a`, `b` or `c`, the others in their order.
pub open spec fn without_keys(
    members: Seq<(Seq<char>, Json)>,
    a: Seq<char>,
    b: Seq<char>,
    c: Seq<char>,
) -> Seq<(Seq<char>, Json)> {
    without_keys_before(members, a, b, c, members.len() as int)
}

/// Computes `without_keys`.
pub fn members_without(members: &Vec<Member>, a: &str, b: &str, c: &str) -> (out: Vec<Member>)
    ensures
        members_view(out@) == without_keys(members_view(members@), a@, b@, c@),
{
    let ghost all = members_view(members@);
    let mut out: Vec<Member> = Vec::new();
    let mut i: usize = 0;
    while i < members.len()
        invariant
            i <= members.len(),
            all == members_view(members@),
            members_view(out@) == without_keys_before(all, a@, b@, c@, i as int),
        decreases members.len() - i,
    {
        let key = members[i].key.as_str();
        if !(same_text(key, a) || same_text(key, b) || same_text(key, c)) {
            let copy = members[i].clone();
            out.push(copy);
        }
        i += 1;
    }
    out
}

/// Whether no name stands twice among `names`.
pub open spec fn distinct(names: Seq<Seq<char>>) -> bool {
    forall|i: int, j: int| 0 <= i < j < names.len() ==> names[i] != names[j]
}

/// The names of `members`, in their order.
pub open spec fn keys(members: Seq<(Seq<char>, Json)>) -> Seq<Seq<char>> {
    Seq::new(members.len(), |i: int| members[i].0)
}

/// Whether no two of `members` bear the same name, as it is in an object
/// that was read from JSON text.
pub open spec fn distinct_keys(members: Seq<(Seq<char>, Json)>) -> bool {
    distinct(keys(members))
}

/// Computes `distinct_keys`.
pub fn has_distinct_keys(members: &Vec<Member>) -> (r: bool)
    ensures
        r == distinct_keys(members_view(members@)),
{
    let ghost names = keys(members_view(members@));
    let mut j: usize = 0;
    while j < members.len()
        invariant
            j <= members.len(),
            names == keys(members_view(members@)),
            forall|a: int, b: int| 0 <= a < b < j ==> names[a] != names[b],
        decreases members.len() - j,
    {
        let mut i: usize = 0;
        while i < j
            invariant
                i <= j < members.len(),
                names == keys(members_view(members@)),
                forall|a: int| 0 <= a < i ==> names[a] != names[j as int],
            decreases j - i,
        {
            if same_text(members[i].key.as_str(), members[j].key.as_str()) {
                assert(names[i as int] == names[j as int]);
                return false;
            }
            i += 1;
        }
        j += 1;
    }
    true
}

/// Among members of distinct names, a name is borne by the one member at
/// which it is found, and by no other.
pub proof fn lemma_lookup_among_distinct(
    members: Seq<(Seq<char>, Json)>,
    key: Seq<char>,
    at: int,
    n: int,
)
    requires
        distinct_keys(members),
        0 <= at < members.len(),
        members[at].0 == key,
        0 <= n <= members.len(),
    ensures
        lookup_before(members, key, n) == if at < n {
            Some(members[at].1)
        } else {
            None
        },
    decreases n,
{
    if n > 0 {
        lemma_lookup_among_distinct(members, key, at, n - 1);
        if n - 1 != at {
            assert(keys(members)[n - 1] != keys(members)[at]);
        }
    }
}

/// A name that no member bears is not found.
pub proof fn lemma_lookup_of_absent(members: Seq<(Seq<char>, Json)>, key: Seq<char>, n: int)
    requires
        0 <= n <= members.len(),
        forall|i: int| 0 <= i < members.len() ==> (#[trigger] members[i]).0 != key,
    ensures
        lookup_before(members, key, n) is None,
    decreases n,
{
    if n > 0 {
        lemma_lookup_of_absent(members, key, n - 1);
    }
}

/// Whether two runs of members are the same.
pub fn same_members(a: &Vec<Member>, b: &Vec<Member>) -> (r: bool)
    ensures
        r == (members_view(a@) == members_view(b@)),
{
    if a.len() != b.len() {
        assert(members_view(a@).len() != members_view(b@).len());
        return false;
    }
    let mut i: usize = 0;
    while i < a.len()
        invariant
            i <= a.len(),
            a.len() == b.len(),
            forall|j: int| 0 <= j < i ==> a@[j]@ == b@[j]@,
        decreases a.len() - i,
    {
        if !same_text(a[i].key.as_str(), b[i].key.as_str()) || !a[i].value.same_as(&b[i].value) {
            assert(members_view(a@)[i as int] != members_view(b@)[i as int]);
            return false;
        }
        i += 1;
    }
    assert(members_view(a@) =~= members_view(b@));
    true
}

/// The object whose members are copies of `members`.
pub fn object_of(members: &Vec<Member>) -> (doc: JsonValue)
    ensures
        doc@ == Json::Object(members_view(members@)),
{
    let mut out: Vec<Member> = Vec::new();
    let mut i: usize = 0;
    while i < members.len()
        invariant
            i <= members.len(),
            out@.len() == i,
            forall|j: int| 0 <= j < i ==> (#[trigger] out@[j])@ == members@[j]@,
        decreases members.len() - i,
    {
        let copy = members[i].clone();
        out.push(copy);
        i += 1;
    }
    proof {
        lemma_object_view(out);
        assert(members_view(out@) =~= members_view(members@));
    }
    JsonValue::Object(out)
}

impl Clone for JsonValue {
    fn clone(&self) -> (r: Self)
        ensures
            r@ == self@,
    {
        self.duplicate()
    }
}

impl Clone for Member {
    fn clone(&self) -> (r: Self)
        ensures
            r.key@ == self.key@,
            r.value@ == self.value@,
    {
        Member { key: self.key.clone(), value: self.value.duplicate() }
    }
}

/// The depth to which documents are written: that to which `serde_json`
/// reads them.
pub const MAX_DEPTH: usize = 128;

/// Whether arrays and objects are nested at most `limit` deep in `doc`.
pub open spec fn within_depth(doc: Json, limit: nat) -> bool
    decreases limit,
{
    match doc {
        Json::Array(items) => limit > 0 && forall|i: int|
            0 <= i < items.len() ==> within_depth(#[trigger] items[i], (limit - 1) as nat),
        Json::Object(members) => limit > 0 && forall|i: int|
            0 <= i < members.len() ==> within_depth((#[trigger] members[i]).1, (limit - 1) as nat),
        _ => true,
    }
}

/// The compact JSON text of a document: what `serde_json` writes for it,
/// where it is nested no deeper than `MAX_DEPTH` and each of its numbers is
/// one. `None` for every other document.
pub open spec fn document_text(doc: Json) -> Option<Seq<char>> {
    if within_depth(doc, MAX_DEPTH as nat) {
        json_text(doc)
    } else {
        None
    }
}

impl JsonValue {
    /// Whether arrays and objects are nested at most `limit` deep.
    pub fn fits(&self, limit: usize) -> (r: bool)
        ensures
            r == within_depth(self@, limit as nat),
        decreases limit,
    {
        match self {
            JsonValue::Array(items) => {
                proof {
                    lemma_array_view(*items);
                }
                if limit == 0 {
                    return false;
                }
                let mut i: usize = 0;
                while i < items.len()
                    invariant
                        i <= items.len(),
                        limit > 0,
                        self@ == Json::Array(values_view(items@)),
                        forall|j: int|
                            0 <= j < i ==> within_depth(
                                #[trigger] values_view(items@)[j],
                                (limit - 1) as nat,
                            ),
                    decreases items.len() - i,
                {
                    if !items[i].fits(limit - 1) {
                        assert(self@->Array_0[i as int] == items@[i as int]@);
                        return false;
                    }
                    i += 1;
                }
                true
            },
            JsonValue::Object(members) => {
                proof {
                    lemma_object_view(*members);
                }
                if limit == 0 {
                    return false;
                }
                let mut i: usize = 0;
                while i < members.len()
                    invariant
                        i <= members.len(),
                        limit > 0,
                        self@ == Json::Object(members_view(members@)),
                        forall|j: int|
                            0 <= j < i ==> within_depth(
                                (#[trigger] members_view(members@)[j]).1,
                                (limit - 1) as nat,
                            ),
                    decreases members.len() - i,
                {
                    if !members[i].value.fits(limit - 1) {
                        assert(self@->Object_0[i as int].1 == members@[i as int].value@);
                        return false;
                    }
                    i += 1;
                }
                true
            },
            _ => true,
        }
    }
}

/// `serde_json::Value`, of which nothing is known here: it is only handed
/// from and to `serde_json`.
#[verifier::external_type_specification]
#[verifier::external_body]
pub struct ExValue(serde_json::Value);

/// What `serde_json` reads from a run of bytes: the document, or the text of
/// its complaint.
pub uninterp spec fn json_document(bytes: Seq<u8>) -> std::result::Result<Json, Seq<char>>;

/// The text that `serde_json` writes for a document, where it can be written.
pub uninterp spec fn json_text(doc: Json) -> Option<Seq<char>>;

/// Moves a `serde_json::Value` into a `JsonValue`, variant by variant; a
/// number becomes the text that `serde_json` prints for it.
#[verifier::external_body]
fn from_value(v: serde_json::Value) -> JsonValue {
    match v {
        serde_json::Value::Null => JsonValue::Null,
        serde_json::Value::Bool(b) => JsonValue::Bool(b),
        serde_json::Value::Number(n) => JsonValue::Number(n.to_string()),
        serde_json::Value::String(s) => JsonValue::Text(s),
        serde_json::Value::Array(a) => JsonValue::Array(a.into_iter().map(from_value).collect()),
        serde_json::Value::Object(m) => JsonValue::Object(
            m.into_iter().map(|(key, v)| Member { key, value: from_value(v) }).collect(),
        ),
    }
}

/// Moves a `JsonValue` into a `serde_json::Value`, variant by variant. The
/// text of a number is read by `serde_json::from_str`; `None` where that
/// does not read it as a number.
#[verifier::external_body]
fn to_value(v: &JsonValue) -> Option<serde_json::Value> {
    Some(
        match v {
            JsonValue::Null => serde_json::Value::Null,
            JsonValue::Bool(b) => serde_json::Value::Bool(*b),
            JsonValue::Number(n) => serde_json::Value::Number(serde_json::from_str(n).ok()?),
            JsonValue::Text(s) => serde_json::Value::String(s.clone()),
            JsonValue::Array(a) => serde_json::Value::Array(
                a.iter().map(to_value).collect::<Option<_>>()?,
            ),
            JsonValue::Object(m) => serde_json::Value::Object(
                m.iter().map(|e| Some((e.key.clone(), to_value(&e.value)?))).collect::<Option<_>>()?,
            ),
        },
    )
}

/// `serde_json::from_slice` on `bytes`: the document that the bytes spell, or
/// the text of the error. Both depend on the bytes alone. `serde_json` gives
/// up on bytes that nest arrays and objects 128 deep, so that a document
/// which it reads is nested less deep.
#[verifier::external_body]
pub(crate) fn read_document(bytes: &[u8]) -> (r: std::result::Result<JsonValue, String>)
    ensures
        match json_document(bytes@) {
            Ok(doc) => r is Ok && r->Ok_0@ == doc,
            Err(text) => r is Err && r->Err_0@ == text,
        },
        r is Ok ==> within_depth(r->Ok_0@, MAX_DEPTH as nat),
{
    match serde_json::from_slice::<serde_json::Value>(bytes) {
        Ok(v) => Ok(from_value(v)),
        Err(e) => Err(e.to_string()),
    }
}

/// `serde_json::to_string` on `doc`, after `serde_json::from_str` has read
/// the text of each of its numbers: the compact text of the document, which
/// depends on the document alone; `None` where it holds a number that
/// `serde_json` does not read as one. Both walk the document to its full
/// depth, which is why only documents of a bounded depth are handed over.
#[verifier::external_body]
pub(crate) fn write_document(doc: &JsonValue) -> (r: Option<String>)
    requires
        within_depth(doc@, MAX_DEPTH as nat),
    ensures
        match json_text(doc@) {
            Some(text) => r is Some && r->Some_0@ == text,
            None => r is None,
        },
{
    serde_json::to_string(&to_value(doc)?).ok()
}

/// Reads a JSON document from bytes. A document that is read is nested no
/// deeper than documents are written.
pub fn parse(bytes: &[u8]) -> (r: std::result::Result<JsonValue, String>)
    ensures
        match json_document(bytes@) {
            Ok(doc) => r is Ok && r->Ok_0@ == doc,
            Err(text) => r is Err && r->Err_0@ == text,
        },
        r is Ok ==> within_depth(r->Ok_0@, MAX_DEPTH as nat),
{
    read_document(bytes)
}

/// Writes a JSON document as compact text.
pub fn render(doc: &JsonValue) -> (r: Option<String>)
    ensures
        match document_text(doc@) {
            Some(text) => r is Some && r->Some_0@ == text,
            None => r is None,
        },
{
    if doc.fits(MAX_DEPTH) {
        write_document(doc)
    } else {
        None
    }
}

} // verus!
