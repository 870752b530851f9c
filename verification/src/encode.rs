//! The JSON text of a request. Strings and AS paths are written by
//! `serde_json`; the objects around them are assembled here, and a field that
//! is absent is left out of its object.

use vstd::prelude::*;
use crate::error::RisError;
use crate::json::{
    decimal_text, digit_char, encode_path, encode_string, json_string_text, numbers_text, path_array_text,
};
use crate::schema::{text_view, RequestDataView, RequestView, RisRequest, RisRequestData};

verus! {

/// One member of a JSON object: the key in quotes, a colon, the value.
pub open spec fn member_text(key: Seq<char>, literal: Seq<char>) -> Seq<char> {
    "\""@ + key + "\":"@ + literal
}

/// The members of a JSON object, separated by commas.
pub open spec fn join_members(members: Seq<Seq<char>>) -> Seq<char>
    decreases members.len(),
{
    if members.len() == 0 {
        Seq::empty()
    } else if members.len() == 1 {
        members[0]
    } else {
        join_members(members.drop_last()) + ","@ + members.last()
    }
}

/// A JSON object with the given members.
pub open spec fn object_text(members: Seq<Seq<char>>) -> Seq<char> {
    "{"@ + join_members(members) + "}"@
}

/// The member for an optional value: none where the value is absent.
pub open spec fn optional_member(key: Seq<char>, literal: Option<Seq<char>>) -> Seq<Seq<char>> {
    match literal {
        Some(l) => seq![member_text(key, l)],
        None => Seq::empty(),
    }
}

/// The members of the filter object, from the JSON text of each filter that is
/// present: `host`, `type`, `require`, `path`, in this order.
pub open spec fn filter_members(
    host: Option<Seq<char>>,
    data_type: Option<Seq<char>>,
    require: Option<Seq<char>>,
    path: Option<Seq<char>>,
) -> Seq<Seq<char>> {
    optional_member("host"@, host) + optional_member("type"@, data_type) + optional_member(
        "require"@,
        require,
    ) + optional_member("path"@, path)
}

/// The filter object, from the JSON text of each filter that is present.
pub open spec fn filter_text(
    host: Option<Seq<char>>,
    data_type: Option<Seq<char>>,
    require: Option<Seq<char>>,
    path: Option<Seq<char>>,
) -> Seq<char> {
    object_text(filter_members(host, data_type, require, path))
}

/// The request object, from the JSON text of its kind and of its filters.
pub open spec fn request_text(type_literal: Seq<char>, data: Option<Seq<char>>) -> Seq<char> {
    object_text(seq![member_text("type"@, type_literal)] + optional_member("data"@, data))
}

/// The JSON string literal of an optional string.
pub open spec fn optional_string_text(s: Option<Seq<char>>) -> Option<Seq<char>> {
    match s {
        Some(t) => Some(json_string_text(t)),
        None => None,
    }
}

/// The JSON array of an optional AS path.
pub open spec fn optional_path_text(p: Option<Seq<u32>>) -> Option<Seq<char>> {
    match p {
        Some(v) => Some(path_array_text(v)),
        None => None,
    }
}

/// The JSON text of the filters of a subscription.
pub open spec fn filter_json(f: RequestDataView) -> Seq<char> {
    filter_text(
        optional_string_text(f.host),
        optional_string_text(f.data_type),
        optional_string_text(f.require),
        optional_path_text(f.path),
    )
}

/// The JSON text of a request.
pub open spec fn request_json(r: RequestView) -> Seq<char> {
    request_text(
        json_string_text(r.message_type),
        match r.data {
            Some(f) => Some(filter_json(f)),
            None => None,
        },
    )
}

/// The JSON text of each filter of a subscription that is present.
#[derive(Debug, Clone)]
pub struct FilterLiterals {
    pub host: Option<String>,
    pub data_type: Option<String>,
    pub require: Option<String>,
    pub path: Option<String>,
}

proof fn lemma_join_push(members: Seq<Seq<char>>, member: Seq<char>)
    ensures
        join_members(members.push(member)) == if members.len() == 0 {
            member
        } else {
            join_members(members) + ","@ + member
        },
{
    assert(members.push(member).drop_last() =~= members);
}

/// Writes one more member behind those that `out` ends in.
fn write_member(
    out: &mut String,
    first: bool,
    key: &str,
    literal: &str,
    Ghost(head): Ghost<Seq<char>>,
    Ghost(members): Ghost<Seq<Seq<char>>>,
)
    requires
        old(out)@ == head + join_members(members),
        first <==> members.len() == 0,
    ensures
        final(out)@ == head + join_members(members.push(member_text(key@, literal@))),
{
    if !first {
        out.append(",");
    }
    out.append("\"");
    out.append(key);
    out.append("\":");
    out.append(literal);
    proof {
        lemma_join_push(members, member_text(key@, literal@));
        assert(out@ =~= head + join_members(members.push(member_text(key@, literal@))));
    }
}

/// Writes the member for an optional value, if it is present.
fn write_optional_member(
    out: &mut String,
    first: bool,
    key: &str,
    literal: &Option<String>,
    Ghost(head): Ghost<Seq<char>>,
    Ghost(members): Ghost<Seq<Seq<char>>>,
) -> (still_first: bool)
    requires
        old(out)@ == head + join_members(members),
        first <==> members.len() == 0,
    ensures
        final(out)@ == head + join_members(members + optional_member(key@, text_view(*literal))),
        still_first <==> (members + optional_member(key@, text_view(*literal))).len() == 0,
{
    match literal {
        Some(l) => {
            write_member(out, first, key, l.as_str(), Ghost(head), Ghost(members));
            proof {
                assert(members + optional_member(key@, text_view(*literal)) =~= members.push(
                    member_text(key@, l@),
                ));
            }
            false
        },
        None => {
            proof {
                assert(members + optional_member(key@, text_view(*literal)) =~= members);
            }
            first
        },
    }
}

/// Assembles the filter object from the JSON text of each filter that is
/// present. A filter that is absent gets no member.
pub fn assemble_filter(literals: &FilterLiterals) -> (text: String)
    ensures
        text@ == filter_text(
            text_view(literals.host),
            text_view(literals.data_type),
            text_view(literals.require),
            text_view(literals.path),
        ),
{
    let mut out = String::from_str("{");
    let ghost head = "{"@;
    let ghost m0 = Seq::<Seq<char>>::empty();
    proof {
        assert(out@ =~= head + join_members(m0));
    }
    let first = write_optional_member(&mut out, true, "host", &literals.host, Ghost(head), Ghost(m0));
    let ghost m1 = m0 + optional_member("host"@, text_view(literals.host));
    let first = write_optional_member(
        &mut out,
        first,
        "type",
        &literals.data_type,
        Ghost(head),
        Ghost(m1),
    );
    let ghost m2 = m1 + optional_member("type"@, text_view(literals.data_type));
    let first = write_optional_member(
        &mut out,
        first,
        "require",
        &literals.require,
        Ghost(head),
        Ghost(m2),
    );
    let ghost m3 = m2 + optional_member("require"@, text_view(literals.require));
    let _ = write_optional_member(&mut out, first, "path", &literals.path, Ghost(head), Ghost(m3));
    out.append("}");
    proof {
        assert(m0 + optional_member("host"@, text_view(literals.host)) =~= optional_member(
            "host"@,
            text_view(literals.host),
        ));
    }
    out
}

/// Assembles the request object from the JSON text of its kind and, where it
/// carries filters, of its filter object.
pub fn assemble_request(type_literal: &str, data: &Option<String>) -> (text: String)
    ensures
        text@ == request_text(type_literal@, text_view(*data)),
{
    let mut out = String::from_str("{");
    let ghost head = "{"@;
    let ghost m0 = Seq::<Seq<char>>::empty();
    proof {
        assert(out@ =~= head + join_members(m0));
    }
    write_member(&mut out, true, "type", type_literal, Ghost(head), Ghost(m0));
    let ghost m1 = m0.push(member_text("type"@, type_literal@));
    let _ = write_optional_member(&mut out, false, "data", data, Ghost(head), Ghost(m1));
    out.append("}");
    proof {
        assert(m1 =~= seq![member_text("type"@, type_literal@)]);
    }
    out
}

/// The JSON string literal of an optional string, from `serde_json`.
fn encode_optional_string(s: &Option<String>) -> (r: Result<Option<String>, RisError>)
    ensures
        r is Ok,
        r matches Ok(l) ==> text_view(l) == optional_string_text(text_view(*s)),
{
    match s {
        Some(t) => match encode_string(t.as_str()) {
            Ok(l) => Ok(Some(l)),
            Err(_) => Err(RisError::Encode),
        },
        None => Ok(None),
    }
}

impl RisRequestData {
    /// The JSON text of the filters: an object with one member for each
    /// filter that is present. It succeeds on every value.
    pub fn encode(&self) -> (r: Result<String, RisError>)
        ensures
            r is Ok,
            r matches Ok(text) ==> text@ == filter_json(self@),
    {
        let host = match encode_optional_string(self.host()) {
            Ok(l) => l,
            Err(e) => {
                return Err(e);
            },
        };
        let data_type = match encode_optional_string(self.data_type()) {
            Ok(l) => l,
            Err(e) => {
                return Err(e);
            },
        };
        let require = match encode_optional_string(self.require()) {
            Ok(l) => l,
            Err(e) => {
                return Err(e);
            },
        };
        let path = match self.path() {
            Some(p) => match encode_path(p) {
                Ok(l) => Some(l),
                Err(_) => {
                    return Err(RisError::Encode);
                },
            },
            None => None,
        };
        let literals = FilterLiterals { host, data_type, require, path };
        Ok(assemble_filter(&literals))
    }
}

impl RisRequest {
    /// The JSON text of the request: its kind under `type` and, where it
    /// carries filters, their object under `data`. It succeeds on every
    /// value.
    pub fn encode(&self) -> (r: Result<String, RisError>)
        ensures
            r is Ok,
            r matches Ok(text) ==> text@ == request_json(self@),
    {
        let type_literal = match encode_string(self.message_type().as_str()) {
            Ok(l) => l,
            Err(_) => {
                return Err(RisError::Encode);
            },
        };
        let data = match self.data() {
            Some(f) => match f.encode() {
                Ok(t) => Some(t),
                Err(e) => {
                    return Err(e);
                },
            },
            None => None,
        };
        Ok(assemble_request(type_literal.as_str(), &data))
    }
}

/// A filter that is absent has no member in the filter object: the object has
/// as many members as filters are present, and with none present it is `{}`.
pub proof fn lemma_absent_filters_omitted(
    host: Option<Seq<char>>,
    data_type: Option<Seq<char>>,
    require: Option<Seq<char>>,
    path: Option<Seq<char>>,
)
    ensures
        filter_members(host, data_type, require, path).len() == (if host is Some {
            1nat
        } else {
            0nat
        }) + (if data_type is Some {
            1nat
        } else {
            0nat
        }) + (if require is Some {
            1nat
        } else {
            0nat
        }) + (if path is Some {
            1nat
        } else {
            0nat
        }),
        host is None && data_type is None && require is None && path is None ==> filter_text(
            host,
            data_type,
            require,
            path,
        ) == "{}"@,
{
    reveal_strlit("{}");
    reveal_strlit("{");
    reveal_strlit("}");
    if host is None && data_type is None && require is None && path is None {
        assert(filter_members(host, data_type, require, path) =~= Seq::empty());
        assert(filter_text(host, data_type, require, path) =~= "{}"@);
    }
}

/// With only the collector set, the filter object has the one member `host`,
/// and neither `type`, `require` nor `path`.
pub proof fn lemma_host_only_filter(host: Seq<char>)
    ensures
        filter_json(
            RequestDataView { host: Some(host), data_type: None, require: None, path: None },
        ) == "{\"host\":"@ + json_string_text(host) + "}"@,
{
    reveal_strlit("{\"host\":");
    reveal_strlit("{");
    reveal_strlit("}");
    reveal_strlit("\"");
    reveal_strlit("host");
    reveal_strlit("\":");
    let lit = json_string_text(host);
    let members = filter_members(Some(lit), None, None, None);
    assert(members =~= seq![member_text("host"@, lit)]);
    assert(object_text(members) =~= "{\"host\":"@ + lit + "}"@);
}

/// With only the AS path set, the filter object has the one member `path`,
/// whose value is the JSON array of the path's numbers.
pub proof fn lemma_path_only_filter(path: Seq<u32>)
    ensures
        filter_json(
            RequestDataView { host: None, data_type: None, require: None, path: Some(path) },
        ) == "{\"path\":"@ + path_array_text(path) + "}"@,
{
    reveal_strlit("{\"path\":");
    reveal_strlit("{");
    reveal_strlit("}");
    reveal_strlit("\"");
    reveal_strlit("path");
    reveal_strlit("\":");
    let lit = path_array_text(path);
    let members = filter_members(None, None, None, Some(lit));
    assert(members =~= seq![member_text("path"@, lit)]);
    assert(object_text(members) =~= "{\"path\":"@ + lit + "}"@);
}

/// A request that carries filters is the object of its kind and its filter
/// object, in this order.
pub proof fn lemma_request_with_filters(type_literal: Seq<char>, filters: Seq<char>)
    ensures
        request_text(type_literal, Some(filters)) == "{\"type\":"@ + type_literal + ",\"data\":"@
            + filters + "}"@,
{
    reveal_strlit("{\"type\":");
    reveal_strlit(",\"data\":");
    reveal_strlit("{");
    reveal_strlit("}");
    reveal_strlit("\"");
    reveal_strlit("type");
    reveal_strlit("data");
    reveal_strlit("\":");
    reveal_strlit(",");
    let members = seq![member_text("type"@, type_literal)] + optional_member("data"@, Some(filters));
    assert(members =~= seq![member_text("type"@, type_literal), member_text("data"@, filters)]);
    assert(members.drop_last() =~= seq![member_text("type"@, type_literal)]);
    assert(join_members(members.drop_last()) == member_text("type"@, type_literal));
    assert(join_members(members) == member_text("type"@, type_literal) + ","@ + member_text(
        "data"@,
        filters,
    ));
    assert(object_text(members) =~= "{\"type\":"@ + type_literal + ",\"data\":"@ + filters + "}"@);
}

proof fn lemma_decimal_has_no_quote(n: nat)
    ensures
        forall|i: int| 0 <= i < decimal_text(n).len() ==> #[trigger] decimal_text(n)[i] != '"',
    decreases n,
{
    let text = decimal_text(n);
    if n >= 10 {
        lemma_decimal_has_no_quote(n / 10);
    }
    assert forall|i: int| 0 <= i < text.len() implies #[trigger] text[i] != '"' by {
        if n < 10 {
            assert(text[i] == digit_char(n));
        } else {
            let front = decimal_text(n / 10);
            if i < front.len() {
                assert(text[i] == front[i]);
            } else {
                assert(text[i] == digit_char(n % 10));
            }
        }
    }
}

proof fn lemma_numbers_have_no_quote(path: Seq<u32>)
    ensures
        forall|i: int| 0 <= i < numbers_text(path).len() ==> #[trigger] numbers_text(path)[i] != '"',
    decreases path.len(),
{
    reveal_strlit(",");
    let text = numbers_text(path);
    if path.len() == 1 {
        lemma_decimal_has_no_quote(path[0] as nat);
    } else if path.len() > 1 {
        let front = numbers_text(path.drop_last());
        let last = decimal_text(path.last() as nat);
        lemma_numbers_have_no_quote(path.drop_last());
        lemma_decimal_has_no_quote(path.last() as nat);
        assert forall|i: int| 0 <= i < text.len() implies #[trigger] text[i] != '"' by {
            if i < front.len() {
                assert(text[i] == front[i]);
            } else if i == front.len() {
                assert(text[i] == ',');
            } else {
                assert(text[i] == last[i - front.len() - 1]);
            }
        }
    }
}

/// The numbers of an AS path are written as JSON numbers, not as strings:
/// the array holds no quotation mark.
pub proof fn lemma_path_elements_are_numbers(path: Seq<u32>)
    ensures
        forall|i: int|
            0 <= i < path_array_text(path).len() ==> #[trigger] path_array_text(path)[i] != '"',
{
    reveal_strlit("[");
    reveal_strlit("]");
    lemma_numbers_have_no_quote(path);
}

} // verus!
