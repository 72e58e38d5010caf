//! The request that an operation asks the transport to perform.

use crate::text::join;
use crate::text::join_strings;
use crate::text::texts;
use vstd::prelude::*;

verus! {

/// The HTTP method of a request.
#[derive(Clone, Copy, Debug, PartialEq, Eq, Structural)]
pub enum Method {
    Get,
    Post,
    Put,
    Delete,
}

/// One HTTP call: method, path below the base URL, URL parameters and body.
#[derive(Debug, PartialEq)]
pub struct Request {
    pub method: Method,
    /// Begins with `/`; holds no query string.
    pub path: String,
    /// The URL parameters, in the order in which they are written.
    pub params: Vec<(String, String)>,
    /// The text to send, if the call has a body.
    pub body: Option<String>,
}

/// The mathematical value of a request.
pub ghost struct RequestModel {
    pub method: Method,
    pub path: Seq<char>,
    pub params: Seq<(Seq<char>, Seq<char>)>,
    pub body: Option<Seq<char>>,
}

/// The names and values of a parameter list as character sequences.
pub open spec fn params_model(params: Seq<(String, String)>) -> Seq<(Seq<char>, Seq<char>)> {
    Seq::new(params.len(), |i: int| (params[i].0@, params[i].1@))
}

/// The text of an optional body.
pub open spec fn body_model(body: Option<String>) -> Option<Seq<char>> {
    match body {
        Some(text) => Some(text@),
        None => None,
    }
}

impl View for Request {
    type V = RequestModel;

    open spec fn view(&self) -> RequestModel {
        RequestModel {
            method: self.method,
            path: self.path@,
            params: params_model(self.params@),
            body: body_model(self.body),
        }
    }
}

/// Whether a parameter called `key` is in the list.
pub open spec fn has_param(params: Seq<(Seq<char>, Seq<char>)>, key: Seq<char>) -> bool {
    exists|i: int| 0 <= i < params.len() && (#[trigger] params[i]).0 == key
}

/// One parameter as it stands in a URL: name, `=`, value.
pub open spec fn pair_text(pair: (Seq<char>, Seq<char>)) -> Seq<char> {
    pair.0 + "="@ + pair.1
}

/// The parameters as they stand in a URL, each as name, `=`, value.
pub open spec fn pair_texts(params: Seq<(Seq<char>, Seq<char>)>) -> Seq<Seq<char>> {
    Seq::new(params.len(), |i: int| pair_text(params[i]))
}

/// The query string of a parameter list: empty for no parameters, else `?`
/// and the parameters with `&` between them. Nothing is escaped.
pub open spec fn query_string(params: Seq<(Seq<char>, Seq<char>)>) -> Seq<char> {
    if params.len() == 0 {
        Seq::empty()
    } else {
        "?"@ + join(pair_texts(params), "&"@)
    }
}

/// The parameter `key` where a value is given, and no parameter where none is.
pub open spec fn optional_param(key: Seq<char>, value: Option<Seq<char>>) -> Seq<(Seq<char>, Seq<char>)> {
    match value {
        Some(v) => seq![(key, v)],
        None => Seq::empty(),
    }
}

/// The text of an optional string.
pub open spec fn optional_text(value: Option<String>) -> Option<Seq<char>> {
    match value {
        Some(s) => Some(s@),
        None => None,
    }
}

/// Appends the parameter `key` to a list where a value is given.
pub fn push_param(params: &mut Vec<(String, String)>, key: &str, value: Option<String>)
    ensures
        params_model(final(params)@) == params_model(old(params)@) + optional_param(
            key@,
            optional_text(value),
        ),
{
    match value {
        Some(v) => params.push((String::from_str(key), v)),
        None => {},
    }
}

/// A list names a parameter exactly if one of its two parts does.
pub proof fn lemma_has_param_concat(
    a: Seq<(Seq<char>, Seq<char>)>,
    b: Seq<(Seq<char>, Seq<char>)>,
    key: Seq<char>,
)
    ensures
        has_param(a + b, key) <==> has_param(a, key) || has_param(b, key),
{
    if has_param(a + b, key) {
        let i = choose|i: int| 0 <= i < (a + b).len() && (#[trigger] (a + b)[i]).0 == key;
        if i < a.len() {
            assert(a[i].0 == key);
        } else {
            assert(b[i - a.len()].0 == key);
        }
    }
    if has_param(a, key) {
        let i = choose|i: int| 0 <= i < a.len() && (#[trigger] a[i]).0 == key;
        assert((a + b)[i].0 == key);
    }
    if has_param(b, key) {
        let i = choose|i: int| 0 <= i < b.len() && (#[trigger] b[i]).0 == key;
        assert((a + b)[i + a.len()].0 == key);
    }
}

/// An optional parameter is named in the list exactly if its value is given
/// and the name is its own.
pub proof fn lemma_has_optional_param(key: Seq<char>, value: Option<Seq<char>>, probe: Seq<char>)
    ensures
        has_param(optional_param(key, value), probe) <==> value is Some && key == probe,
{
    if value is Some && key == probe {
        assert(optional_param(key, value)[0].0 == probe);
    }
}

impl RequestModel {
    /// The path followed by the query string.
    pub open spec fn target(self) -> Seq<char> {
        self.path + query_string(self.params)
    }
}

/// Writes the query string of a parameter list.
pub fn format_query_string(params: &Vec<(String, String)>) -> (r: String)
    ensures
        r@ == query_string(params_model(params@)),
{
    if params.len() == 0 {
        return String::new();
    }
    let mut parts: Vec<String> = Vec::new();
    let mut i: usize = 0;
    while i < params.len()
        invariant
            i <= params.len(),
            parts@.len() == i,
            forall|k: int| 0 <= k < i ==> (#[trigger] parts@[k])@ == pair_text(params_model(params@)[k]),
        decreases params.len() - i,
    {
        let mut part = params[i].0.clone();
        part.append("=");
        part.append(params[i].1.as_str());
        parts.push(part);
        i += 1;
    }
    assert(texts(parts@) =~= pair_texts(params_model(params@)));
    let mut out = String::from_str("?");
    let joined = join_strings(&parts, "&");
    out.append(joined.as_str());
    out
}

impl Request {
    /// The path followed by the query string: what follows the base URL.
    pub fn target(&self) -> (r: String)
        ensures
            r@ == self@.target(),
    {
        let mut out = self.path.clone();
        let query = format_query_string(&self.params);
        out.append(query.as_str());
        out
    }
}

} // verus!
