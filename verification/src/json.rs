//! JSON values, as far as the dashboard reads them.

use crate::text;
use vstd::prelude::*;

verus! {

pub enum Json {
    Null,
    Bool(bool),
    /// A number, with its value where it is a whole one that fits.
    Number(Option<u64>),
    Text(String),
    List(Vec<Json>),
    Object(Vec<(String, Json)>),
}

#[verifier::ext_equal]
pub enum JsonView {
    Null,
    Bool(bool),
    Number(Option<u64>),
    Text(Seq<char>),
    List(Seq<JsonView>),
    Object(Seq<(Seq<char>, JsonView)>),
}

impl Json {
    /// The value that this stands for.
    pub open spec fn model(self) -> JsonView
        decreases self,
    {
        match self {
            Json::Null => JsonView::Null,
            Json::Bool(b) => JsonView::Bool(b),
            Json::Number(n) => JsonView::Number(n),
            Json::Text(s) => JsonView::Text(s@),
            Json::List(l) => JsonView::List(
                Seq::new(
                    l@.len(),
                    |i: int|
                        if 0 <= i < l@.len() {
                            l@[i].model()
                        } else {
                            JsonView::Null
                        },
                ),
            ),
            Json::Object(l) => JsonView::Object(
                Seq::new(
                    l@.len(),
                    |i: int|
                        if 0 <= i < l@.len() {
                            (l@[i].0@, l@[i].1.model())
                        } else {
                            (Seq::empty(), JsonView::Null)
                        },
                ),
            ),
        }
    }
}

/* ---------------- reading ---------------- */

#[verifier::external_type_specification]
#[verifier::external_body]
pub struct ExValue(serde_json::Value);

#[verifier::external_type_specification]
#[verifier::external_body]
pub struct ExError(serde_json::Error);

/// What a value of `serde_json` holds.
pub uninterp spec fn contents(v: serde_json::Value) -> JsonView;

/// What `serde_json::from_str` reads from a text, if the text is one JSON value.
pub uninterp spec fn json_of(t: Seq<char>) -> Option<JsonView>;

/// `serde_json::from_str`: the outcome depends on the text alone.
#[verifier::external_body]
fn parse(t: &str) -> (r: Result<serde_json::Value, serde_json::Error>)
    ensures
        match r {
            Ok(v) => json_of(t@) == Some(contents(v)),
            Err(_) => json_of(t@) is None,
        },
{
    serde_json::from_str(t)
}

/// The variants of a `serde_json::Value`, one for one. Of a number only the value that
/// `Number::as_u64` gives is kept; an object's members come in the order of its map.
#[verifier::external_body]
fn convert(v: &serde_json::Value) -> (r: Json)
    ensures
        r.model() == contents(*v),
{
    match v {
        serde_json::Value::Null => Json::Null,
        serde_json::Value::Bool(b) => Json::Bool(*b),
        serde_json::Value::Number(n) => Json::Number(n.as_u64()),
        serde_json::Value::String(s) => Json::Text(s.clone()),
        serde_json::Value::Array(l) => Json::List(l.iter().map(convert).collect()),
        serde_json::Value::Object(m) => Json::Object(
            m.iter().map(|(k, x)| (k.clone(), convert(x))).collect(),
        ),
    }
}

/// Reads a JSON value from a text.
pub fn read(t: &str) -> (r: Option<Json>)
    ensures
        match r {
            Some(j) => json_of(t@) == Some(j.model()),
            None => json_of(t@) is None,
        },
{
    match parse(t) {
        Ok(v) => Some(convert(&v)),
        Err(_) => None,
    }
}

/* ---------------- looking ---------------- */

impl JsonView {
    /// The position of a member of an object.
    pub open spec fn find(l: Seq<(Seq<char>, JsonView)>, key: Seq<char>) -> Option<int>
        decreases l.len(),
    {
        if l.len() == 0 {
            None
        } else {
            match JsonView::find(l.drop_last(), key) {
                Some(i) => Some(i),
                None => if l.last().0 == key {
                    Some(l.len() - 1)
                } else {
                    None
                },
            }
        }
    }

    /// A member of an object.
    pub open spec fn member(self, key: Seq<char>) -> Option<JsonView> {
        match self {
            JsonView::Object(l) => match JsonView::find(l, key) {
                Some(i) => Some(l[i].1),
                None => None,
            },
            _ => None,
        }
    }

    /// A member of a member, and so on.
    pub open spec fn at(self, path: Seq<Seq<char>>) -> Option<JsonView>
        decreases path.len(),
    {
        if path.len() == 0 {
            Some(self)
        } else {
            match self.at(path.drop_last()) {
                Some(j) => j.member(path.last()),
                None => None,
            }
        }
    }

    /// The text that this is, or an empty one.
    pub open spec fn text_or_empty(self) -> Seq<char> {
        match self {
            JsonView::Text(s) => s,
            _ => Seq::empty(),
        }
    }

    /// The text of a member, or an empty one.
    pub open spec fn member_text(self, key: Seq<char>) -> Seq<char> {
        match self.member(key) {
            Some(j) => j.text_or_empty(),
            None => Seq::empty(),
        }
    }

    /// The whole number that this is.
    pub open spec fn whole(self) -> Option<u64> {
        match self {
            JsonView::Number(n) => n,
            _ => None,
        }
    }

    /// The whole number at a path, or 0.
    pub open spec fn whole_at(self, path: Seq<Seq<char>>) -> u64 {
        match self.at(path) {
            Some(j) => match j.whole() {
                Some(n) => n,
                None => 0,
            },
            None => 0,
        }
    }
}

proof fn find_grows(l: Seq<(Seq<char>, JsonView)>, key: Seq<char>, i: int)
    requires
        0 <= i <= l.len(),
        JsonView::find(l.take(i), key) is Some,
    ensures
        JsonView::find(l, key) == JsonView::find(l.take(i), key),
    decreases l.len(),
{
    if i < l.len() {
        assert(l.drop_last().take(i) == l.take(i));
        find_grows(l.drop_last(), key, i);
    } else {
        assert(l.take(i) == l);
    }
}

pub open spec fn path_view(path: Seq<&str>) -> Seq<Seq<char>> {
    path.map_values(|k: &str| k@)
}

proof fn nothing_below(j: JsonView, path: Seq<Seq<char>>, i: int)
    requires
        0 <= i <= path.len(),
        j.at(path.take(i)) is None,
    ensures
        j.at(path) is None,
    decreases path.len(),
{
    if i < path.len() {
        assert(path.drop_last().take(i) == path.take(i));
        nothing_below(j, path.drop_last(), i);
    } else {
        assert(path.take(i) == path);
    }
}

impl Json {
    /// A member of an object.
    pub fn get(&self, key: &str) -> (r: Option<&Json>)
        ensures
            match r {
                Some(j) => self.model().member(key@) == Some(j.model()),
                None => self.model().member(key@) is None,
            },
    {
        match self {
            Json::Object(l) => {
                let ghost lv = self.model()->Object_0;
                let mut i: usize = 0;
                assert(lv.take(0) == Seq::<(Seq<char>, JsonView)>::empty());
                while i < l.len()
                    invariant
                        i <= l@.len(),
                        *self == Json::Object(*l),
                        self.model() == JsonView::Object(lv),
                        lv.len() == l@.len(),
                        forall|k: int|
                            0 <= k < l@.len() ==> #[trigger] lv[k] == (l@[k].0@, l@[k].1.model()),
                        JsonView::find(lv.take(i as int), key@) is None,
                    decreases l@.len() - i,
                {
                    assert(lv.take(i + 1).drop_last() == lv.take(i as int));
                    assert(lv[i as int] == (l@[i as int].0@, l@[i as int].1.model()));
                    if text::same(l[i].0.as_str(), key) {
                        proof {
                            find_grows(lv, key@, i + 1);
                        }
                        return Some(&l[i].1);
                    }
                    i += 1;
                }
                assert(lv.take(lv.len() as int) == lv);
                None
            },
            _ => None,
        }
    }

    /// The value that `serde_json` holds.
    pub fn of(v: &serde_json::Value) -> (r: Json)
        ensures
            r.model() == contents(*v),
    {
        convert(v)
    }

    /// A member of a member, and so on.
    pub fn at(&self, path: &[&str]) -> (r: Option<&Json>)
        ensures
            match r {
                Some(j) => self.model().at(path_view(path@)) == Some(j.model()),
                None => self.model().at(path_view(path@)) is None,
            },
    {
        let ghost p = path_view(path@);
        let mut j: &Json = self;
        let mut i: usize = 0;
        assert(p.take(0) == Seq::<Seq<char>>::empty());
        while i < path.len()
            invariant
                i <= path@.len(),
                p == path_view(path@),
                self.model().at(p.take(i as int)) == Some(j.model()),
            decreases path@.len() - i,
        {
            assert(p.take(i + 1).drop_last() == p.take(i as int));
            match j.get(path[i]) {
                Some(k) => {
                    j = k;
                },
                None => {
                    proof {
                        nothing_below(self.model(), p, i + 1);
                    }
                    return None;
                },
            }
            i += 1;
        }
        assert(p.take(p.len() as int) == p);
        Some(j)
    }

    /// The whole number at a path, or 0.
    pub fn whole_at(&self, path: &[&str]) -> (r: u64)
        ensures
            r == self.model().whole_at(path_view(path@)),
    {
        match self.at(path) {
            Some(j) => match j.whole() {
                Some(n) => n,
                None => 0,
            },
            None => 0,
        }
    }

    /// The text that this is, or an empty one.
    pub fn text_or_empty(&self) -> (r: String)
        ensures
            r@ == self.model().text_or_empty(),
    {
        match self {
            Json::Text(s) => s.clone(),
            _ => String::new(),
        }
    }

    /// The text of a member, or an empty one.
    pub fn member_text(&self, key: &str) -> (r: String)
        ensures
            r@ == self.model().member_text(key@),
    {
        match self.get(key) {
            Some(j) => j.text_or_empty(),
            None => String::new(),
        }
    }

    /// The whole number that this is.
    pub fn whole(&self) -> (r: Option<u64>)
        ensures
            r == self.model().whole(),
    {
        match self {
            Json::Number(n) => *n,
            _ => None,
        }
    }
}

} // verus!
