//! The JSON form of a decoder's record, as the knowledge store keeps it.

use crate::decoders::crack_results::{CrackResult, CrackView};
use crate::decoders::interface::texts_view;
use vstd::prelude::*;
use vstd::string::StringExecFns;

verus! {

/// The error type of `serde_json`.
#[verifier::external_type_specification]
#[verifier::external_body]
pub struct ExJsonError(serde_json::Error);

/// The JSON string literal that stands for `text`: quoted, and escaped where
/// JSON asks for it; `None` where the JSON writer refuses the text.
pub uninterp spec fn json_quoted(text: Seq<char>) -> Option<Seq<char>>;

/// Calls `serde_json::to_string` on a string, which writes it as one JSON
/// string literal. What comes back, literal or refusal, depends on the text
/// alone.
#[verifier::external_body]
pub(crate) fn json_string(text: &str) -> (r: Result<String, serde_json::Error>)
    ensures
        r.is_ok() == json_quoted(text@).is_some(),
        r matches Ok(s) ==> s@ == json_quoted(text@).unwrap(),
{
    serde_json::to_string(text)
}

/// The JSON writer has a string literal for each of `items`.
pub open spec fn all_quoted(items: Seq<Seq<char>>) -> bool {
    forall|i: int| 0 <= i < items.len() ==> (#[trigger] json_quoted(items[i])).is_some()
}

/// The string literals for `items`, in order.
pub open spec fn quoted_all(items: Seq<Seq<char>>) -> Seq<Seq<char>> {
    Seq::new(items.len(), |i: int| json_quoted(items[i]).unwrap())
}

/// The first `n` of `parts` with commas between them.
pub open spec fn joined(parts: Seq<Seq<char>>, n: int) -> Seq<char>
    decreases n,
{
    if n <= 0 {
        Seq::empty()
    } else if n == 1 {
        parts[0]
    } else {
        joined(parts, n - 1) + ","@ + parts[n - 1]
    }
}

/// The JSON value of an optional list whose elements are written already:
/// `null`, or the elements between brackets with commas between them.
pub open spec fn framed_list(parts: Option<Seq<Seq<char>>>) -> Seq<char> {
    match parts {
        None => "null"@,
        Some(list) => "["@ + joined(list, list.len() as int) + "]"@,
    }
}

/// The JSON value of an optional list of texts: `null` or an array of string
/// literals; `None` where the JSON writer refuses one of the texts.
pub open spec fn json_candidates(candidates: Option<Seq<Seq<char>>>) -> Option<Seq<char>> {
    match candidates {
        None => Some(framed_list(None)),
        Some(items) => if all_quoted(items) {
            Some(framed_list(Some(quoted_all(items))))
        } else {
            None
        },
    }
}

/// Calls `serde_json::to_string` on a list of strings, which writes them as
/// one JSON array without white space: the string literals of the elements
/// between brackets, with commas between them. It refuses the list where it
/// refuses one of the elements, and only there.
#[verifier::external_body]
pub(crate) fn json_array(items: &Vec<String>) -> (r: Result<String, serde_json::Error>)
    ensures
        r.is_ok() == json_candidates(Some(items.deep_view())).is_some(),
        r matches Ok(s) ==> s@ == json_candidates(Some(items.deep_view())).unwrap(),
{
    serde_json::to_string(items)
}

/// The JSON value of an optional text: `null` or a string literal; `None`
/// where the JSON writer refuses the text.
pub open spec fn json_optional(text: Option<Seq<char>>) -> Option<Seq<char>> {
    match text {
        None => Some("null"@),
        Some(t) => json_quoted(t),
    }
}

/// The JSON value of a truth value.
pub open spec fn json_bool(b: bool) -> Seq<char> {
    if b {
        "true"@
    } else {
        "false"@
    }
}

/// The JSON object of a record whose values are written already: the fields
/// in the order of their declaration, each under its name, without white
/// space.
pub open spec fn record_frame(
    success: bool,
    encrypted_text: Seq<char>,
    unencrypted_text: Seq<char>,
    decoder: Seq<char>,
    checker_name: Seq<char>,
    checker_description: Seq<char>,
    key: Seq<char>,
    description: Seq<char>,
    link: Seq<char>,
) -> Seq<char> {
    "{\"success\":"@ + json_bool(success) + ",\"encrypted_text\":"@ + encrypted_text
        + ",\"unencrypted_text\":"@ + unencrypted_text + ",\"decoder\":"@ + decoder
        + ",\"checker_name\":"@ + checker_name + ",\"checker_description\":"@
        + checker_description + ",\"key\":"@ + key + ",\"description\":"@ + description
        + ",\"link\":"@ + link + "}"@
}

/// The JSON writer has a value for every field of the record.
pub open spec fn writable(v: CrackView) -> bool {
    &&& json_quoted(v.encrypted_text).is_some()
    &&& json_candidates(v.unencrypted_text).is_some()
    &&& json_quoted(v.decoder).is_some()
    &&& json_quoted(v.checker_name).is_some()
    &&& json_quoted(v.checker_description).is_some()
    &&& json_optional(v.key).is_some()
    &&& json_quoted(v.description).is_some()
    &&& json_quoted(v.link).is_some()
}

/// The JSON object that stands for a record: the frame of [`record_frame`]
/// around the JSON values of its fields; `None` where the JSON writer refuses
/// one of them.
pub open spec fn crack_json(v: CrackView) -> Option<Seq<char>> {
    if writable(v) {
        Some(
            record_frame(
                v.success,
                json_quoted(v.encrypted_text).unwrap(),
                json_candidates(v.unencrypted_text).unwrap(),
                json_quoted(v.decoder).unwrap(),
                json_quoted(v.checker_name).unwrap(),
                json_quoted(v.checker_description).unwrap(),
                json_optional(v.key).unwrap(),
                json_quoted(v.description).unwrap(),
                json_quoted(v.link).unwrap(),
            ),
        )
    } else {
        None
    }
}

/// Appends `label` and a string literal to `out`, where there is a literal:
/// `quoted` is what the JSON writer has made of the text. Its refusal is
/// handed on.
pub fn frame_field(out: String, label: &str, quoted: Result<String, serde_json::Error>) -> (r:
    Result<String, serde_json::Error>)
    ensures
        match quoted {
            Ok(literal) => r matches Ok(s) && s@ == out@ + label@ + literal@,
            Err(e) => r matches Err(handed) && handed == e,
        },
{
    match quoted {
        Ok(literal) => {
            let mut s = out;
            s.append(label);
            s.append(literal.as_str());
            Ok(s)
        },
        Err(e) => Err(e),
    }
}

/// Appends to `out` the JSON value of an optional list whose elements are
/// written already, see [`framed_list`].
pub fn frame_list(out: String, parts: Option<&Vec<String>>) -> (s: String)
    ensures
        s@ == out@ + framed_list(
            match parts {
                Some(list) => Some(list.deep_view()),
                None => None,
            },
        ),
{
    let mut s = out;
    match parts {
        None => {
            s.append("null");
            s
        },
        Some(list) => {
            let ghost all = list.deep_view();
            let mut body = String::new();
            let mut i: usize = 0;
            while i < list.len()
                invariant
                    i <= list.len(),
                    all == list.deep_view(),
                    body@ == joined(all, i as int),
                decreases list.len() - i,
            {
                if i > 0 {
                    body.append(",");
                }
                body.append(list[i].as_str());
                i += 1;
            }
            s.append("[");
            s.append(body.as_str());
            s.append("]");
            assert(s@ =~= out@ + ("["@ + joined(all, all.len() as int) + "]"@));
            s
        },
    }
}

/// Writes the JSON object of a record whose values are written already, see
/// [`record_frame`].
pub fn frame_record(
    success: bool,
    encrypted_text: &str,
    unencrypted_text: &str,
    decoder: &str,
    checker_name: &str,
    checker_description: &str,
    key: &str,
    description: &str,
    link: &str,
) -> (s: String)
    ensures
        s@ == record_frame(
            success,
            encrypted_text@,
            unencrypted_text@,
            decoder@,
            checker_name@,
            checker_description@,
            key@,
            description@,
            link@,
        ),
{
    let mut s = String::new();
    s.append("{\"success\":");
    if success {
        s.append("true");
    } else {
        s.append("false");
    }
    s.append(",\"encrypted_text\":");
    s.append(encrypted_text);
    s.append(",\"unencrypted_text\":");
    s.append(unencrypted_text);
    s.append(",\"decoder\":");
    s.append(decoder);
    s.append(",\"checker_name\":");
    s.append(checker_name);
    s.append(",\"checker_description\":");
    s.append(checker_description);
    s.append(",\"key\":");
    s.append(key);
    s.append(",\"description\":");
    s.append(description);
    s.append(",\"link\":");
    s.append(link);
    s.append("}");
    proof {
        assert(s@ =~= record_frame(
            success,
            encrypted_text@,
            unencrypted_text@,
            decoder@,
            checker_name@,
            checker_description@,
            key@,
            description@,
            link@,
        ));
    }
    s
}

/// Appends `label` and the string literal for `value` to `out`; fails where
/// the JSON writer has no literal for `value`, and only there.
fn push_text(out: String, label: &str, value: &str) -> (r: Result<String, serde_json::Error>)
    ensures
        match json_quoted(value@) {
            Some(literal) => r matches Ok(s) && s@ == out@ + label@ + literal,
            None => r.is_err(),
        },
{
    frame_field(out, label, json_string(value))
}

/// Appends the JSON value of `candidates` to `out`; fails where the JSON
/// writer has no literal for one of the candidates, and only there.
fn push_candidates(out: String, candidates: &Option<Vec<String>>) -> (r: Result<
    String,
    serde_json::Error,
>)
    ensures
        match json_candidates(texts_view(*candidates)) {
            Some(value) => r matches Ok(s) && s@ == out@ + value,
            None => r.is_err(),
        },
{
    let list = match candidates {
        None => {
            return Ok(frame_list(out, None));
        },
        Some(list) => list,
    };
    let ghost items = list.deep_view();
    let mut literals: Vec<String> = Vec::new();
    let mut i: usize = 0;
    while i < list.len()
        invariant
            i <= list.len(),
            *candidates == Some(*list),
            items == list.deep_view(),
            literals@.len() == i,
            forall|k: int| 0 <= k < i ==> (#[trigger] json_quoted(items[k])).is_some(),
            forall|k: int|
                0 <= k < i ==> (#[trigger] literals@[k])@ == json_quoted(items[k]).unwrap(),
        decreases list.len() - i,
    {
        match json_string(list[i].as_str()) {
            Ok(literal) => {
                literals.push(literal);
            },
            Err(e) => {
                assert(json_quoted(items[i as int]).is_none());
                assert(!all_quoted(items));
                return Err(e);
            },
        }
        i += 1;
    }
    assert(all_quoted(items));
    assert(literals.deep_view() =~= quoted_all(items));
    Ok(frame_list(out, Some(&literals)))
}

impl CrackResult {
    /// The record as a JSON object, see [`crack_json`]. Fails where the JSON
    /// writer refuses one of the texts, and only there.
    pub fn get_json(&self) -> (r: Result<String, serde_json::Error>)
        ensures
            match crack_json(self@) {
                Some(json) => r matches Ok(s) && s@ == json,
                None => r.is_err(),
            },
    {
        let encrypted_text = match json_string(self.encrypted_text.as_str()) {
            Ok(literal) => literal,
            Err(e) => {
                return Err(e);
            },
        };
        let unencrypted_text = match push_candidates(String::new(), &self.unencrypted_text) {
            Ok(value) => value,
            Err(e) => {
                return Err(e);
            },
        };
        let decoder = match json_string(self.decoder) {
            Ok(literal) => literal,
            Err(e) => {
                return Err(e);
            },
        };
        let checker_name = match json_string(self.checker_name) {
            Ok(literal) => literal,
            Err(e) => {
                return Err(e);
            },
        };
        let checker_description = match json_string(self.checker_description) {
            Ok(literal) => literal,
            Err(e) => {
                return Err(e);
            },
        };
        let key = match self.key {
            None => "null".to_owned(),
            Some(k) => match json_string(k) {
                Ok(literal) => literal,
                Err(e) => {
                    return Err(e);
                },
            },
        };
        let description = match json_string(self.description) {
            Ok(literal) => literal,
            Err(e) => {
                return Err(e);
            },
        };
        let link = match json_string(self.link) {
            Ok(literal) => literal,
            Err(e) => {
                return Err(e);
            },
        };
        proof {
            assert(texts_view(self.unencrypted_text) == self@.unencrypted_text);
            assert(unencrypted_text@ =~= json_candidates(self@.unencrypted_text).unwrap());
            assert(writable(self@));
        }
        Ok(
            frame_record(
                self.success,
                encrypted_text.as_str(),
                unencrypted_text.as_str(),
                decoder.as_str(),
                checker_name.as_str(),
                checker_description.as_str(),
                key.as_str(),
                description.as_str(),
                link.as_str(),
            ),
        )
    }
}

} // verus!
