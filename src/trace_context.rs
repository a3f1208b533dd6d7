use vstd::prelude::*;

verus! {

/// The fields of `s` separated by `'-'`, read left to right: a string with
/// no dash is one field, and each dash opens a new, initially empty, field.
pub open spec fn dash_fields(s: Seq<char>) -> Seq<Seq<char>>
    decreases s.len(),
{
    if s.len() == 0 {
        seq![Seq::<char>::empty()]
    } else {
        let prefix = dash_fields(s.drop_last());
        if s.last() == '-' {
            prefix.push(Seq::<char>::empty())
        } else {
            prefix.update(prefix.len() - 1, prefix.last().push(s.last()))
        }
    }
}

/// Relies on str::split with a char pattern: the pieces between the dashes,
/// in order, empty pieces included.
#[verifier::external_body]
fn split_on_dash<'a>(s: &'a str) -> (r: Vec<&'a str>)
    ensures
        r@.len() == dash_fields(s@).len(),
        forall|i: int| 0 <= i < r@.len() ==> (#[trigger] r@[i])@ == dash_fields(s@)[i],
{
    s.split('-').collect()
}

/// The trace id and the parent span id of a W3C `traceparent` header
/// (`version-traceid-spanid-flags`): its second and third dash-separated
/// fields, or neither when the header is absent or has fewer than four fields.
pub fn parse_traceparent(traceparent: Option<&str>) -> (r: (Option<String>, Option<String>))
    ensures
        match traceparent {
            None => r.0 is None && r.1 is None,
            Some(v) => if dash_fields(v@).len() < 4 {
                r.0 is None && r.1 is None
            } else {
                &&& r.0 matches Some(t) && t@ == dash_fields(v@)[1]
                &&& r.1 matches Some(p) && p@ == dash_fields(v@)[2]
            },
        },
{
    let value = match traceparent {
        Some(value) => value,
        None => return (None, None),
    };
    let parts = split_on_dash(value);
    if parts.len() < 4 {
        return (None, None);
    }
    (Some(parts[1].to_owned()), Some(parts[2].to_owned()))
}

/// What `str::trim` leaves of a string.
pub uninterp spec fn trimmed(s: Seq<char>) -> Seq<char>;

/// Relies on str::trim: the string without its leading and trailing white space.
#[verifier::external_body]
fn trim<'a>(s: &'a str) -> (r: &'a str)
    ensures
        r@ == trimmed(s@),
{
    s.trim()
}

/// The request id to use: the caller's own when it sent one that is not
/// blank (`header_is_blank` tells whether it trims to nothing), else one
/// made from `fresh_id` with the `req_` prefix.
pub fn request_id_or_fresh(header: Option<String>, header_is_blank: bool, fresh_id: &str) -> (r:
    String)
    ensures
        match header {
            Some(v) if !header_is_blank => r@ == v@,
            _ => r@ == "req_"@ + fresh_id@,
        },
{
    match header {
        Some(v) if !header_is_blank => v,
        _ => {
            let mut id = String::from_str("req_");
            id.append(fresh_id);
            id
        },
    }
}

/// The request id for a request whose `x-request-id` header is `header`:
/// that header when it is not blank once trimmed, else `req_` and `fresh_id`.
pub fn resolve_request_id(header: Option<String>, fresh_id: &str) -> (r: String)
    ensures
        match header {
            Some(v) if trimmed(v@).len() > 0 => r@ == v@,
            _ => r@ == "req_"@ + fresh_id@,
        },
{
    let blank = match &header {
        Some(v) => trim(v.as_str()).is_empty(),
        None => true,
    };
    request_id_or_fresh(header, blank, fresh_id)
}

} // verus!
