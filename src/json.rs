use vstd::prelude::*;

verus! {

broadcast use vstd::std_specs::vec::group_vec_axioms, vstd::seq::group_seq_axioms;

#[derive(Debug)]
/// A JSON document as the provider protocols exchange it.
///
/// Numbers keep the decimal text that the wire carried; object members keep
/// their order, and a lookup by key finds the first member with that key.
pub enum Json {
    Null,
    Bool(bool),
    Number(String),
    Str(String),
    Array(Vec<Json>),
    Object(Vec<(String, Json)>),
}

/// The mathematical value of a [`Json`] document.
pub enum JsonV {
    Null,
    Bool(bool),
    Number(Seq<char>),
    Str(Seq<char>),
    Array(Seq<JsonV>),
    Object(Seq<(Seq<char>, JsonV)>),
}

pub open spec fn json_view(j: Json) -> JsonV
    decreases j,
{
    match j {
        Json::Null => JsonV::Null,
        Json::Bool(b) => JsonV::Bool(b),
        Json::Number(n) => JsonV::Number(n@),
        Json::Str(s) => JsonV::Str(s@),
        Json::Array(items) => JsonV::Array(items_view(items@)),
        Json::Object(entries) => JsonV::Object(entries_view(entries@)),
    }
}

pub open spec fn items_view(s: Seq<Json>) -> Seq<JsonV>
    decreases s,
{
    if s.len() == 0 {
        Seq::empty()
    } else {
        items_view(s.drop_last()).push(json_view(s.last()))
    }
}

pub open spec fn entries_view(s: Seq<(String, Json)>) -> Seq<(Seq<char>, JsonV)>
    decreases s,
{
    if s.len() == 0 {
        Seq::empty()
    } else {
        entries_view(s.drop_last()).push((s.last().0@, json_view(s.last().1)))
    }
}

impl View for Json {
    type V = JsonV;

    open spec fn view(&self) -> JsonV {
        json_view(*self)
    }
}


pub proof fn lemma_items_view(s: Seq<Json>)
    ensures
        items_view(s).len() == s.len(),
        forall|i: int| 0 <= i < s.len() ==> #[trigger] items_view(s)[i] == json_view(s[i]),
    decreases s.len(),
{
    if s.len() > 0 {
        lemma_items_view(s.drop_last());
    }
}

pub proof fn lemma_entries_view(s: Seq<(String, Json)>)
    ensures
        entries_view(s).len() == s.len(),
        forall|i: int|
            0 <= i < s.len() ==> #[trigger] entries_view(s)[i] == (s[i].0@, json_view(s[i].1)),
    decreases s.len(),
{
    if s.len() > 0 {
        lemma_entries_view(s.drop_last());
    }
}

/// `i` is the position of the first member named `key`.
pub open spec fn first_key(es: Seq<(Seq<char>, JsonV)>, key: Seq<char>, i: int) -> bool {
    &&& 0 <= i < es.len()
    &&& es[i].0 == key
    &&& forall|j: int| 0 <= j < i ==> es[j].0 != key
}

/// The value of the first member named `key`.
pub open spec fn lookup(es: Seq<(Seq<char>, JsonV)>, key: Seq<char>) -> Option<JsonV> {
    if exists|i: int| first_key(es, key, i) {
        Some(es[choose|i: int| first_key(es, key, i)].1)
    } else {
        None
    }
}

impl JsonV {
    /// The member `key` of an object; `None` for a missing member or a non-object.
    pub open spec fn get(self, key: Seq<char>) -> Option<JsonV> {
        match self {
            JsonV::Object(es) => lookup(es, key),
            _ => None,
        }
    }

    /// Indexing by key as `value["key"]` does: a missing member reads as `null`.
    pub open spec fn key(self, key: Seq<char>) -> JsonV {
        match self.get(key) {
            Some(v) => v,
            None => JsonV::Null,
        }
    }

    /// The element `i` of an array; `None` out of range or for a non-array.
    pub open spec fn at(self, i: int) -> Option<JsonV> {
        match self {
            JsonV::Array(items) => if 0 <= i < items.len() {
                Some(items[i])
            } else {
                None
            },
            _ => None,
        }
    }

    /// Indexing by position as `value[i]` does: a missing element reads as `null`.
    pub open spec fn nth(self, i: int) -> JsonV {
        match self.at(i) {
            Some(v) => v,
            None => JsonV::Null,
        }
    }

    pub open spec fn as_str(self) -> Option<Seq<char>> {
        match self {
            JsonV::Str(s) => Some(s),
            _ => None,
        }
    }

    pub open spec fn as_array(self) -> Option<Seq<JsonV>> {
        match self {
            JsonV::Array(items) => Some(items),
            _ => None,
        }
    }

    /// The string member `key`, if the member exists and is a string.
    pub open spec fn str_field(self, key: Seq<char>) -> Option<Seq<char>> {
        match self.get(key) {
            Some(v) => v.as_str(),
            None => None,
        }
    }
}

pub open spec fn opt_view(r: Option<&Json>) -> Option<JsonV> {
    match r {
        Some(v) => Some(v@),
        None => None,
    }
}

pub open spec fn opt_str_view(r: Option<&String>) -> Option<Seq<char>> {
    match r {
        Some(s) => Some(s@),
        None => None,
    }
}

/// Compares two string slices by their characters.
pub fn str_eq(a: &str, b: &str) -> (r: bool)
    ensures
        r == (a@ == b@),
{
    let x = String::from_str(a);
    let y = String::from_str(b);
    x == y
}

impl Json {
    pub fn str(s: &str) -> (r: Json)
        ensures
            r@ == JsonV::Str(s@),
    {
        Json::Str(String::from_str(s))
    }

    pub fn empty_object() -> (r: Json)
        ensures
            r@ == JsonV::Object(Seq::empty()),
    {
        let r = Json::Object(Vec::new());
        assert(entries_view(Seq::<(String, Json)>::empty()) =~= Seq::empty());
        r
    }

    /// A deep copy of the document.
    pub fn copy(&self) -> (r: Json)
        ensures
            r@ == self@,
        decreases self,
    {
        match self {
            Json::Null => Json::Null,
            Json::Bool(b) => Json::Bool(*b),
            Json::Number(n) => Json::Number(n.clone()),
            Json::Str(s) => Json::Str(s.clone()),
            Json::Array(items) => {
                let mut out: Vec<Json> = Vec::new();
                let mut i: usize = 0;
                while i < items.len()
                    invariant
                        *self == Json::Array(*items),
                        i <= items.len(),
                        out@.len() == i,
                        forall|k: int| 0 <= k < i ==> #[trigger] json_view(out@[k]) == json_view(items@[k]),
                    decreases items.len() - i,
                {
                    proof {
                        vstd::std_specs::vec::axiom_vec_index_decreases(*items, i as int);
                        assert(decreases_to!(*self => (*self)->Array_0));
                    }
                    let c = items[i].copy();
                    out.push(c);
                    i = i + 1;
                }
                proof {
                    lemma_items_view(out@);
                    lemma_items_view(items@);
                    assert(items_view(out@) =~= items_view(items@));
                }
                Json::Array(out)
            },
            Json::Object(entries) => {
                let mut out: Vec<(String, Json)> = Vec::new();
                let mut i: usize = 0;
                while i < entries.len()
                    invariant
                        *self == Json::Object(*entries),
                        i <= entries.len(),
                        out@.len() == i,
                        forall|k: int| 0 <= k < i ==> (#[trigger] out@[k]).0@ == entries@[k].0@,
                        forall|k: int|
                            0 <= k < i ==> json_view((#[trigger] out@[k]).1) == json_view(entries@[k].1),
                    decreases entries.len() - i,
                {
                    proof {
                        vstd::std_specs::vec::axiom_vec_index_decreases(*entries, i as int);
                        assert(decreases_to!(*self => (*self)->Object_0));
                        assert(decreases_to!(entries[i as int] => entries[i as int].1));
                    }
                    let c = entries[i].1.copy();
                    let k = entries[i].0.clone();
                    out.push((k, c));
                    assert(out@[i as int].0@ == entries@[i as int].0@);
                    i = i + 1;
                }
                proof {
                    lemma_entries_view(out@);
                    lemma_entries_view(entries@);
                    assert(entries_view(out@) =~= entries_view(entries@));
                }
                Json::Object(out)
            },
        }
    }
}


pub open spec fn or_null(o: Option<JsonV>) -> JsonV {
    match o {
        Some(v) => v,
        None => JsonV::Null,
    }
}

/// The empty object `{}`.
pub open spec fn empty_obj() -> JsonV {
    JsonV::Object(Seq::empty())
}

/// At most one position is the first one named `key`.
pub proof fn lemma_first_key_unique(es: Seq<(Seq<char>, JsonV)>, key: Seq<char>, i: int)
    requires
        first_key(es, key, i),
    ensures
        (choose|c: int| first_key(es, key, c)) == i,
        lookup(es, key) == Some(es[i].1),
{
    assert forall|c: int| first_key(es, key, c) implies c == i by {
        if c < i {
            assert(es[c].0 != key);
        } else if c > i {
            assert(es[i].0 != key);
        }
    }
}

/// With no member named `key` the lookup finds nothing.
pub proof fn lemma_lookup_absent(es: Seq<(Seq<char>, JsonV)>, key: Seq<char>)
    requires
        forall|j: int| 0 <= j < es.len() ==> es[j].0 != key,
    ensures
        !exists|i: int| first_key(es, key, i),
        lookup(es, key) is None,
{
}

/// The members after replacing the first one named `key`, or adding it at the end.
pub open spec fn obj_set(es: Seq<(Seq<char>, JsonV)>, key: Seq<char>, v: JsonV) -> Seq<(Seq<char>, JsonV)> {
    if exists|i: int| first_key(es, key, i) {
        es.update(choose|i: int| first_key(es, key, i), (key, v))
    } else {
        es.push((key, v))
    }
}

impl Json {
    /// The member `key` of an object.
    pub fn get(&self, key: &str) -> (r: Option<&Json>)
        ensures
            opt_view(r) == self@.get(key@),
    {
        match self {
            Json::Object(entries) => {
                proof {
                    lemma_entries_view(entries@);
                }
                let ghost es = entries_view(entries@);
                let mut i: usize = 0;
                while i < entries.len()
                    invariant
                        *self == Json::Object(*entries),
                        es == entries_view(entries@),
                        es.len() == entries@.len(),
                        forall|k: int|
                            0 <= k < entries@.len() ==> #[trigger] es[k] == (entries@[k].0@, json_view(entries@[k].1)),
                        i <= entries.len(),
                        forall|j: int| 0 <= j < i ==> es[j].0 != key@,
                    decreases entries.len() - i,
                {
                    if str_eq(entries[i].0.as_str(), key) {
                        proof {
                            assert(es[i as int].0 == key@);
                            lemma_first_key_unique(es, key@, i as int);
                        }
                        return Some(&entries[i].1);
                    }
                    i = i + 1;
                }
                proof {
                    lemma_lookup_absent(es, key@);
                }
                None
            },
            _ => None,
        }
    }

    /// The element `i` of an array.
    pub fn at(&self, i: usize) -> (r: Option<&Json>)
        ensures
            opt_view(r) == self@.at(i as int),
    {
        match self {
            Json::Array(items) => {
                proof {
                    lemma_items_view(items@);
                }
                if i < items.len() {
                    Some(&items[i])
                } else {
                    None
                }
            },
            _ => None,
        }
    }

    pub fn as_str(&self) -> (r: Option<&String>)
        ensures
            opt_str_view(r) == self@.as_str(),
    {
        match self {
            Json::Str(s) => Some(s),
            _ => None,
        }
    }

    pub fn as_array(&self) -> (r: Option<&Vec<Json>>)
        ensures
            r is Some == self@ is Array,
            r is Some ==> items_view(r->0@) == self@->Array_0,
    {
        match self {
            Json::Array(items) => Some(items),
            _ => None,
        }
    }

    /// The string member `key`.
    pub fn str_field(&self, key: &str) -> (r: Option<&String>)
        ensures
            opt_str_view(r) == self@.str_field(key@),
    {
        match self.get(key) {
            Some(v) => v.as_str(),
            None => None,
        }
    }

    /// Adds a member at the end of an object, without looking for an earlier one.
    pub fn push_member(&mut self, key: &str, value: Json)
        requires
            old(self)@ is Object,
        ensures
            final(self)@ == JsonV::Object(old(self)@->Object_0.push((key@, value@))),
    {
        match self {
            Json::Object(entries) => {
                proof {
                    lemma_entries_view(entries@);
                }
                entries.push((String::from_str(key), value));
                proof {
                    lemma_entries_view(entries@);
                }
                assert(entries_view(entries@) =~= old(self)@->Object_0.push((key@, value@)));
            },
            _ => {},
        }
    }

    /// Sets the member `key` of an object, replacing the first member of that name if there is one.
    pub fn set(&mut self, key: &str, value: Json)
        requires
            old(self)@ is Object,
        ensures
            final(self)@ == JsonV::Object(obj_set(old(self)@->Object_0, key@, value@)),
    {
        match self {
            Json::Object(entries) => {
                proof {
                    lemma_entries_view(entries@);
                }
                let ghost es = entries_view(entries@);
                let ghost v = value@;
                match find_key(entries, key) {
                    Some(i) => {
                        proof {
                            lemma_first_key_unique(es, key@, i as int);
                        }
                        entries.set(i, (String::from_str(key), value));
                        proof {
                            lemma_entries_view(entries@);
                            assert(entries_view(entries@) =~= es.update(i as int, (key@, v)));
                        }
                    },
                    None => {
                        entries.push((String::from_str(key), value));
                        proof {
                            lemma_entries_view(entries@);
                            assert(entries_view(entries@) =~= es.push((key@, v)));
                        }
                    },
                }
            },
            _ => {},
        }
    }
}

/// The position of the first member named `key`.
fn find_key(entries: &Vec<(String, Json)>, key: &str) -> (r: Option<usize>)
    ensures
        r is Some ==> first_key(entries_view(entries@), key@, r->0 as int),
        r is None ==> !exists|i: int| first_key(entries_view(entries@), key@, i),
{
    proof {
        lemma_entries_view(entries@);
    }
    let ghost es = entries_view(entries@);
    let mut i: usize = 0;
    while i < entries.len()
        invariant
            es == entries_view(entries@),
            es.len() == entries@.len(),
            forall|k: int|
                0 <= k < entries@.len() ==> #[trigger] es[k] == (entries@[k].0@, json_view(entries@[k].1)),
            i <= entries.len(),
            forall|j: int| 0 <= j < i ==> es[j].0 != key@,
        decreases entries.len() - i,
    {
        if str_eq(entries[i].0.as_str(), key) {
            assert(es[i as int].0 == key@);
            return Some(i);
        }
        i = i + 1;
    }
    proof {
        lemma_lookup_absent(es, key@);
    }
    None
}


/// The member `key` of a value that may be missing; a missing value reads as `null`.
pub fn get_in<'a>(v: Option<&'a Json>, key: &str) -> (r: Option<&'a Json>)
    ensures
        opt_view(r) == or_null(opt_view(v)).get(key@),
{
    match v {
        Some(j) => j.get(key),
        None => None,
    }
}

/// The element `i` of a value that may be missing; a missing value reads as `null`.
pub fn at_in<'a>(v: Option<&'a Json>, i: usize) -> (r: Option<&'a Json>)
    ensures
        opt_view(r) == or_null(opt_view(v)).at(i as int),
{
    match v {
        Some(j) => j.at(i),
        None => None,
    }
}

/// The string held by a value that may be missing.
pub fn str_in<'a>(v: Option<&'a Json>) -> (r: Option<&'a String>)
    ensures
        opt_str_view(r) == or_null(opt_view(v)).as_str(),
{
    match v {
        Some(j) => j.as_str(),
        None => None,
    }
}


pub proof fn lemma_items_view_push(s: Seq<Json>, x: Json)
    ensures
        items_view(s.push(x)) == items_view(s).push(json_view(x)),
{
    assert(s.push(x).drop_last() =~= s);
}

/// The array of the given elements.
pub fn array_of(items: Vec<Json>) -> (r: Json)
    ensures
        r@ == JsonV::Array(items_view(items@)),
{
    Json::Array(items)
}

/// The array of one element.
pub fn array1(v: Json) -> (r: Json)
    ensures
        r@ == JsonV::Array(seq![v@]),
{
    let mut items: Vec<Json> = Vec::new();
    proof {
        lemma_items_view_push(items@, v);
        assert(items_view(Seq::<Json>::empty()) =~= Seq::empty());
    }
    items.push(v);
    Json::Array(items)
}

/// Appends a document to a list of documents.
pub fn push_doc(h: &mut Vec<Json>, v: Json)
    ensures
        items_view(final(h)@) == items_view(old(h)@).push(v@),
{
    proof {
        lemma_items_view_push(h@, v);
    }
    h.push(v);
}

/// A deep copy of a list of documents.
pub fn copy_docs(h: &[Json]) -> (r: Vec<Json>)
    ensures
        items_view(r@) == items_view(h@),
{
    let mut out: Vec<Json> = Vec::new();
    let mut i: usize = 0;
    while i < h.len()
        invariant
            i <= h@.len(),
            items_view(out@) == items_view(h@.subrange(0, i as int)),
        decreases h@.len() - i,
    {
        proof {
            lemma_items_view_push(h@.subrange(0, i as int), h@[i as int]);
            assert(h@.subrange(0, i as int).push(h@[i as int]) =~= h@.subrange(0, i as int + 1));
        }
        let c = h[i].copy();
        proof {
            lemma_items_view_push(out@, c);
        }
        out.push(c);
        i = i + 1;
    }
    assert(h@.subrange(0, h@.len() as int) =~= h@);
    out
}
} // verus!
