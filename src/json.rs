use vstd::prelude::*;

verus! {

/// A parsed JSON value as the library reads it. Numbers carry no value:
/// nothing here reads one.
pub enum JsonView {
    Null,
    Bool(bool),
    Number,
    Str(Seq<char>),
    Array(Seq<JsonView>),
    Object(Seq<(Seq<char>, JsonView)>),
}

/// A parsed JSON value; an object lists its members in order.
#[derive(Debug)]
pub enum Json {
    Null,
    Bool(bool),
    Number,
    Str(String),
    Array(Vec<Json>),
    Object(Vec<(String, Json)>),
}

/// The value that `j` holds.
pub open spec fn json_view(j: Json) -> JsonView
    decreases j,
{
    match j {
        Json::Null => JsonView::Null,
        Json::Bool(b) => JsonView::Bool(b),
        Json::Number => JsonView::Number,
        Json::Str(s) => JsonView::Str(s@),
        Json::Array(a) => JsonView::Array(
            Seq::new(a.len() as nat, |i: int| if 0 <= i < a.len() { json_view(a[i]) } else { JsonView::Null }),
        ),
        Json::Object(es) => JsonView::Object(
            Seq::new(
                es.len() as nat,
                |i: int| if 0 <= i < es.len() { (es[i].0@, json_view(es[i].1)) } else { (Seq::empty(), JsonView::Null) },
            ),
        ),
    }
}

impl View for Json {
    type V = JsonView;

    open spec fn view(&self) -> JsonView {
        json_view(*self)
    }
}

/// The JSON document that `text` denotes, `None` when it is not JSON. An
/// object's members come in serde_json's map order, one per key.
pub uninterp spec fn json_of(text: Seq<char>) -> Option<JsonView>;

/// The value of the first member named `key` among `entries`.
pub open spec fn entry_value(entries: Seq<(Seq<char>, JsonView)>, key: Seq<char>) -> Option<JsonView>
    decreases entries.len(),
{
    if entries.len() == 0 {
        None
    } else if entries[0].0 == key {
        Some(entries[0].1)
    } else {
        entry_value(entries.drop_first(), key)
    }
}

/// The member of `j` named `key`; `None` when it is absent or `j` is no object.
pub open spec fn member_view(j: JsonView, key: Seq<char>) -> Option<JsonView> {
    match j {
        JsonView::Object(entries) => entry_value(entries, key),
        _ => None,
    }
}

proof fn lemma_entry_value_skip(entries: Seq<(Seq<char>, JsonView)>, key: Seq<char>, i: int)
    requires
        0 <= i <= entries.len(),
        forall|j: int| 0 <= j < i ==> (#[trigger] entries[j]).0 != key,
    ensures
        entry_value(entries, key) == entry_value(entries.skip(i), key),
    decreases i,
{
    if i > 0 {
        let rest = entries.drop_first();
        assert forall|j: int| 0 <= j < i - 1 implies (#[trigger] rest[j]).0 != key by {
            assert(rest[j] == entries[j + 1]);
        }
        lemma_entry_value_skip(rest, key, i - 1);
        assert(rest.skip(i - 1) =~= entries.skip(i));
    } else {
        assert(entries.skip(0) =~= entries);
    }
}

impl Json {
    /// Moves a serde_json value over, variant by variant.
    #[verifier::external_body]
    fn from_value(v: serde_json::Value) -> Json {
        match v {
            serde_json::Value::Null => Json::Null,
            serde_json::Value::Bool(b) => Json::Bool(b),
            serde_json::Value::Number(_) => Json::Number,
            serde_json::Value::String(s) => Json::Str(s),
            serde_json::Value::Array(a) => Json::Array(a.into_iter().map(Json::from_value).collect()),
            serde_json::Value::Object(m) => Json::Object(
                m.into_iter().map(|(k, v)| (k, Json::from_value(v))).collect(),
            ),
        }
    }

    /// The member named `key`, when `self` is an object that has one.
    pub fn member(&self, key: &str) -> (r: Option<&Json>)
        ensures
            match r {
                Some(m) => member_view(self@, key@) == Some(m@),
                None => member_view(self@, key@) is None,
            },
    {
        match self {
            Json::Object(entries) => {
                let ghost ev = match self@ {
                    JsonView::Object(ev) => ev,
                    _ => Seq::empty(),
                };
                assert(self@ == JsonView::Object(ev));
                let k = key.to_owned();
                let mut i: usize = 0;
                while i < entries.len()
                    invariant
                        i <= entries@.len(),
                        self@ == JsonView::Object(ev),
                        ev.len() == entries@.len(),
                        forall|j: int| 0 <= j < entries@.len() ==> #[trigger] ev[j] == (entries@[j].0@, entries@[j].1@),
                        forall|j: int| 0 <= j < i ==> (#[trigger] ev[j]).0 != key@,
                        k@ == key@,
                    decreases entries@.len() - i,
                {
                    if entries[i].0 == k {
                        proof {
                            lemma_entry_value_skip(ev, key@, i as int);
                            assert(ev[i as int] == (entries@[i as int].0@, entries@[i as int].1@));
                            assert(ev.skip(i as int)[0] == ev[i as int]);
                            assert(ev[i as int].0 == key@);
                            assert(entry_value(ev.skip(i as int), key@) == Some(ev[i as int].1));
                        }
                        return Some(&entries[i].1);
                    }
                    i = i + 1;
                }
                proof {
                    lemma_entry_value_skip(ev, key@, i as int);
                }
                None
            },
            _ => None,
        }
    }
}

/// Relies on serde_json::from_str into a serde_json::Value: whether a text is
/// JSON, and the document it denotes, depend on the text alone.
#[verifier::external_body]
pub(crate) fn parse_json(text: &str) -> (r: Result<Json, serde_json::Error>)
    ensures
        r is Ok <==> json_of(text@) is Some,
        r is Ok ==> json_of(text@) == Some(r->Ok_0@),
{
    serde_json::from_str::<serde_json::Value>(text).map(Json::from_value)
}

/// A parsed serde_json document, moved into a `Json` as soon as it is read.
#[verifier::external_type_specification]
#[verifier::external_body]
pub struct ExValue(serde_json::Value);

/// The error serde_json reports for text that is not JSON.
#[verifier::external_type_specification]
#[verifier::external_body]
pub struct ExJsonError(serde_json::Error);

} // verus!
