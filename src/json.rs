//! A structured JSON value and its mathematical model.
use vstd::prelude::*;
use vstd::string::StringExecFns;

verus! {

/// A decoded JSON value.
///
/// A number is kept as the text that a JSON encoder writes for it, so that
/// it can be handed back unchanged; this library never does arithmetic on
/// numbers it receives. An object keeps its members in order.
#[derive(Debug)]
pub enum Json {
    Null,
    Bool(bool),
    Number(String),
    String(String),
    Array(Vec<Json>),
    Object(Vec<(String, Json)>),
}

/// The mathematical model of a [`Json`] value.
pub enum JsonModel {
    Null,
    Bool(bool),
    Number(Seq<char>),
    String(Seq<char>),
    Array(Seq<JsonModel>),
    Object(Seq<(Seq<char>, JsonModel)>),
}

impl Json {
    pub open spec fn model(self) -> JsonModel
        decreases self,
    {
        match self {
            Json::Null => JsonModel::Null,
            Json::Bool(b) => JsonModel::Bool(b),
            Json::Number(t) => JsonModel::Number(t@),
            Json::String(s) => JsonModel::String(s@),
            Json::Array(items) => JsonModel::Array(models(items@)),
            Json::Object(fields) => JsonModel::Object(member_models(fields@)),
        }
    }
}

/// The models of a sequence of values, in order.
pub open spec fn models(s: Seq<Json>) -> Seq<JsonModel>
    decreases s,
{
    if s.len() == 0 {
        Seq::empty()
    } else {
        models(s.subrange(0, s.len() - 1)).push(s[s.len() - 1].model())
    }
}

/// The models of a sequence of object members, in order.
pub open spec fn member_models(s: Seq<(String, Json)>) -> Seq<(Seq<char>, JsonModel)>
    decreases s,
{
    if s.len() == 0 {
        Seq::empty()
    } else {
        member_models(s.subrange(0, s.len() - 1)).push(
            (s[s.len() - 1].0@, s[s.len() - 1].1.model()),
        )
    }
}

impl JsonModel {
    /// The member named `key` of an object: the first one with that name.
    /// Anything but an object has no members.
    pub open spec fn get(self, key: Seq<char>) -> Option<JsonModel> {
        match self {
            JsonModel::Object(members) => member_get(members, key),
            _ => None,
        }
    }

    /// The text of a string value; anything else has none.
    pub open spec fn as_str(self) -> Option<Seq<char>> {
        match self {
            JsonModel::String(s) => Some(s),
            _ => None,
        }
    }
}

/// The value of the first member named `key`.
pub open spec fn member_get(members: Seq<(Seq<char>, JsonModel)>, key: Seq<char>) -> Option<
    JsonModel,
>
    decreases members.len(),
{
    if members.len() == 0 {
        None
    } else if members[0].0 == key {
        Some(members[0].1)
    } else {
        member_get(members.drop_first(), key)
    }
}

/// The model of an optional value.
pub open spec fn option_model(o: Option<Json>) -> Option<JsonModel> {
    match o {
        Some(j) => Some(j.model()),
        None => None,
    }
}

/// The model of an optional borrowed value.
pub open spec fn ref_model(o: Option<&Json>) -> Option<JsonModel> {
    match o {
        Some(j) => Some(j.model()),
        None => None,
    }
}

pub proof fn lemma_models_push(s: Seq<Json>, j: Json)
    ensures
        models(s.push(j)) == models(s).push(j.model()),
{
    assert(s.push(j).subrange(0, s.len() as int) =~= s);
}

pub proof fn lemma_member_models_push(s: Seq<(String, Json)>, m: (String, Json))
    ensures
        member_models(s.push(m)) == member_models(s).push((m.0@, m.1.model())),
{
    assert(s.push(m).subrange(0, s.len() as int) =~= s);
}

pub proof fn lemma_models_index(s: Seq<Json>)
    ensures
        models(s).len() == s.len(),
        forall|i: int| 0 <= i < s.len() ==> #[trigger] models(s)[i] == s[i].model(),
    decreases s.len(),
{
    if s.len() > 0 {
        let t = s.subrange(0, s.len() - 1);
        lemma_models_index(t);
        assert forall|i: int| 0 <= i < s.len() implies #[trigger] models(s)[i] == s[i].model() by {
            if i < s.len() - 1 {
                assert(models(t)[i] == t[i].model());
            }
        }
    }
}

pub proof fn lemma_member_models_index(s: Seq<(String, Json)>)
    ensures
        member_models(s).len() == s.len(),
        forall|i: int|
            0 <= i < s.len() ==> #[trigger] member_models(s)[i] == (s[i].0@, s[i].1.model()),
    decreases s.len(),
{
    if s.len() > 0 {
        let t = s.subrange(0, s.len() - 1);
        lemma_member_models_index(t);
        assert forall|i: int| 0 <= i < s.len() implies #[trigger] member_models(s)[i] == (
            s[i].0@,
            s[i].1.model(),
        ) by {
            if i < s.len() - 1 {
                assert(member_models(t)[i] == (t[i].0@, t[i].1.model()));
            }
        }
    }
}

impl Json {
    /// A string value holding a copy of `s`.
    pub fn from_text(s: &str) -> (r: Json)
        ensures
            r.model() == JsonModel::String(s@),
    {
        Json::String(String::from_str(s))
    }

    /// An object with one member.
    pub fn object1(k0: &str, v0: Json) -> (r: Json)
        ensures
            r.model() == JsonModel::Object(seq![(k0@, v0.model())]),
    {
        let ghost m0 = v0.model();
        let members = vec![(String::from_str(k0), v0)];
        proof {
            lemma_member_models_index(members@);
            assert(member_models(members@) =~= seq![(k0@, m0)]);
        }
        Json::Object(members)
    }

    /// An object with two members, in the order given.
    pub fn object2(k0: &str, v0: Json, k1: &str, v1: Json) -> (r: Json)
        ensures
            r.model() == JsonModel::Object(seq![(k0@, v0.model()), (k1@, v1.model())]),
    {
        let ghost m0 = v0.model();
        let ghost m1 = v1.model();
        let members = vec![(String::from_str(k0), v0), (String::from_str(k1), v1)];
        proof {
            lemma_member_models_index(members@);
            assert(member_models(members@) =~= seq![(k0@, m0), (k1@, m1)]);
        }
        Json::Object(members)
    }

    /// An object with three members, in the order given.
    pub fn object3(k0: &str, v0: Json, k1: &str, v1: Json, k2: &str, v2: Json) -> (r: Json)
        ensures
            r.model() == JsonModel::Object(
                seq![(k0@, v0.model()), (k1@, v1.model()), (k2@, v2.model())],
            ),
    {
        let ghost m0 = v0.model();
        let ghost m1 = v1.model();
        let ghost m2 = v2.model();
        let members = vec![
            (String::from_str(k0), v0),
            (String::from_str(k1), v1),
            (String::from_str(k2), v2),
        ];
        proof {
            lemma_member_models_index(members@);
            assert(member_models(members@) =~= seq![(k0@, m0), (k1@, m1), (k2@, m2)]);
        }
        Json::Object(members)
    }

    /// An empty object.
    pub fn empty_object() -> (r: Json)
        ensures
            r.model() == JsonModel::Object(seq![]),
    {
        let members: Vec<(String, Json)> = Vec::new();
        assert(member_models(members@) =~= seq![]);
        Json::Object(members)
    }

    /// An array with one element.
    pub fn array1(v0: Json) -> (r: Json)
        ensures
            r.model() == JsonModel::Array(seq![v0.model()]),
    {
        let ghost m0 = v0.model();
        let items = vec![v0];
        proof {
            lemma_models_index(items@);
            assert(models(items@) =~= seq![m0]);
        }
        Json::Array(items)
    }

    /// A deep copy of this value.
    pub fn copy(&self) -> (r: Json)
        ensures
            r.model() == self.model(),
        decreases self,
    {
        match self {
            Json::Null => Json::Null,
            Json::Bool(b) => Json::Bool(*b),
            Json::Number(t) => Json::Number(t.clone()),
            Json::String(s) => Json::String(s.clone()),
            Json::Array(items) => {
                let mut out: Vec<Json> = Vec::new();
                let mut i: usize = 0;
                while i < items.len()
                    invariant
                        i <= items.len(),
                        *self == Json::Array(*items),
                        models(out@) == models(items@.subrange(0, i as int)),
                    decreases items.len() - i,
                {
                    proof {
                        assert(decreases_to!(*self => self->Array_0));
                        assert(decreases_to!(*items => items@));
                        assert(decreases_to!(items@ => items@[i as int]));
                    }
                    let c = items[i].copy();
                    proof {
                        lemma_models_push(out@, c);
                        lemma_models_push(items@.subrange(0, i as int), items@[i as int]);
                        assert(items@.subrange(0, i as int).push(items@[i as int]) =~= items@.subrange(0, i + 1));
                    }
                    out.push(c);
                    i = i + 1;
                }
                assert(items@.subrange(0, i as int) =~= items@);
                Json::Array(out)
            },
            Json::Object(members) => {
                let mut out: Vec<(String, Json)> = Vec::new();
                let mut i: usize = 0;
                while i < members.len()
                    invariant
                        i <= members.len(),
                        *self == Json::Object(*members),
                        member_models(out@) == member_models(members@.subrange(0, i as int)),
                    decreases members.len() - i,
                {
                    proof {
                        assert(decreases_to!(*self => self->Object_0));
                        assert(decreases_to!(*members => members@));
                        assert(decreases_to!(members@ => members@[i as int]));
                        assert(decreases_to!(members@[i as int] => members@[i as int].1));
                    }
                    let m = (members[i].0.clone(), members[i].1.copy());
                    proof {
                        lemma_member_models_push(out@, m);
                        lemma_member_models_push(members@.subrange(0, i as int), members@[i as int]);
                        assert(members@.subrange(0, i as int).push(members@[i as int]) =~= members@.subrange(0, i + 1));
                    }
                    out.push(m);
                    i = i + 1;
                }
                assert(members@.subrange(0, i as int) =~= members@);
                Json::Object(out)
            },
        }
    }

    /// The member named `key` of an object, if there is one.
    pub fn get(&self, key: &str) -> (r: Option<&Json>)
        ensures
            match r {
                Some(j) => self.model().get(key@) == Some(j.model()),
                None => self.model().get(key@) is None,
            },
    {
        match self {
            Json::Object(members) => {
                let k = String::from_str(key);
                let ghost ms = member_models(members@);
                proof {
                    lemma_member_models_index(members@);
                    assert(ms.subrange(0, ms.len() as int) =~= ms);
                }
                let mut i: usize = 0;
                while i < members.len()
                    invariant
                        i <= members.len(),
                        ms == member_models(members@),
                        self.model() == JsonModel::Object(ms),
                        ms.len() == members.len(),
                        k@ == key@,
                        member_get(ms, key@) == member_get(ms.subrange(i as int, ms.len() as int), key@),
                    decreases members.len() - i,
                {
                    let ghost rest = ms.subrange(i as int, ms.len() as int);
                    proof {
                        lemma_member_models_index(members@);
                    }
                    assert(rest[0] == ms[i as int]);
                    assert(ms[i as int] == (members@[i as int].0@, members@[i as int].1.model()));
                    if members[i].0 == k {
                        assert(member_get(rest, key@) == Some(members@[i as int].1.model()));
                        return Some(&members[i].1);
                    }
                    assert(rest.drop_first() =~= ms.subrange(i + 1, ms.len() as int));
                    i = i + 1;
                }
                None
            },
            _ => None,
        }
    }

    /// The text of a string value.
    pub fn as_str(&self) -> (r: Option<&str>)
        ensures
            match r {
                Some(s) => self.model().as_str() == Some(s@),
                None => self.model().as_str() is None,
            },
    {
        match self {
            Json::String(s) => Some(s.as_str()),
            _ => None,
        }
    }
}

} // verus!
