//! The status report as the tool writes it, read from JSON into plain
//! values. Fields other than those below are ignored.
use vstd::prelude::*;

verus! {

#[verifier::external_type_specification]
#[verifier::external_body]
pub struct ExJsonValue(serde_json::Value);

/// The local machine's entry of a report, as reported.
#[derive(Debug)]
pub struct SelfNode {
    /// The `TailscaleIPs` texts, in report order; empty when the field is absent.
    pub ips: Vec<String>,
    /// The `DNSName` text, if present and not null.
    pub dns_name: Option<String>,
}

/// A decoded report: the `Self` entry, if present and not null.
#[derive(Debug)]
pub struct StatusReport {
    pub self_node: Option<SelfNode>,
}

/// What the logic reads of a JSON value: its kind, a string's text, an
/// array's elements and an object's members; numbers and booleans are
/// scalars.
pub enum JsonView {
    Null,
    Scalar,
    Text(Seq<char>),
    List(Seq<JsonView>),
    Object(Map<Seq<char>, JsonView>),
}

/// Whether `serde_json` reads the bytes as one JSON document.
pub uninterp spec fn is_json_document(raw: Seq<u8>) -> bool;

/// The message of the error that `serde_json` gives for bytes that hold no
/// JSON document.
pub uninterp spec fn json_error_text_of(raw: Seq<u8>) -> Seq<char>;

/// The document that `serde_json` reads from the bytes.
pub uninterp spec fn json_of(raw: Seq<u8>) -> JsonView;

/// What a decoded `serde_json::Value` holds.
pub uninterp spec fn view_of(v: serde_json::Value) -> JsonView;

/// The value of member `key` of an object; `None` for a missing key or a
/// value that is no object.
pub open spec fn member_of(j: JsonView, key: Seq<char>) -> Option<JsonView> {
    match j {
        JsonView::Object(members) => if members.contains_key(key) {
            Some(members[key])
        } else {
            None
        },
        _ => None,
    }
}

/// The texts of a list whose elements are all strings; `None` otherwise.
pub open spec fn text_list(items: Seq<JsonView>) -> Option<Seq<Seq<char>>> {
    if forall|k: int| 0 <= k < items.len() ==> (#[trigger] items[k]) is Text {
        Some(items.map_values(|x: JsonView| x->Text_0))
    } else {
        None
    }
}

/// The `TailscaleIPs` of a self entry: absent means none; an error when it
/// is not an array of strings.
pub open spec fn entry_ips(node: JsonView) -> Result<Seq<Seq<char>>, Seq<char>> {
    match member_of(node, "TailscaleIPs"@) {
        None => Ok(Seq::empty()),
        Some(JsonView::List(items)) => match text_list(items) {
            Some(texts) => Ok(texts),
            None => Err("`TailscaleIPs` holds a value that is not a string"@),
        },
        Some(_) => Err("`TailscaleIPs` is not an array"@),
    }
}

/// The `DNSName` of a self entry: absent or null means none; an error when
/// it is neither of those nor a string.
pub open spec fn entry_dns_name(node: JsonView) -> Result<Option<Seq<char>>, Seq<char>> {
    match member_of(node, "DNSName"@) {
        None => Ok(None),
        Some(JsonView::Null) => Ok(None),
        Some(JsonView::Text(t)) => Ok(Some(t)),
        Some(_) => Err("`DNSName` is not a string"@),
    }
}

/// The self entry that a status document reports, as address texts and DNS
/// name: an error naming the part without the status shape, `Ok(None)`
/// when `Self` is absent or null.
pub open spec fn status_entry(doc: JsonView) -> Result<
    Option<(Seq<Seq<char>>, Option<Seq<char>>)>,
    Seq<char>,
> {
    if !(doc is Object) {
        Err("the report is not a JSON object"@)
    } else {
        match member_of(doc, "Self"@) {
            None => Ok(None),
            Some(JsonView::Null) => Ok(None),
            Some(node) => if !(node is Object) {
                Err("`Self` is not an object"@)
            } else {
                match entry_ips(node) {
                    Err(e) => Err(e),
                    Ok(ips) => match entry_dns_name(node) {
                        Err(e) => Err(e),
                        Ok(dns_name) => Ok(Some((ips, dns_name))),
                    },
                }
            },
        }
    }
}

/// The self entry of a decoded report, as plain values.
pub open spec fn report_entry(report: StatusReport) -> Option<
    (Seq<Seq<char>>, Option<Seq<char>>),
> {
    match report.self_node {
        None => None,
        Some(node) => Some((node.ips.deep_view(), node.dns_name.deep_view())),
    }
}

/// Relies on `serde_json::from_slice` into a `Value`: it succeeds exactly
/// on the byte strings that hold one JSON document; the value read, and
/// the message of the error otherwise, are functions of the bytes alone.
#[verifier::external_body]
pub(crate) fn decode_json(raw: &[u8]) -> (r: Result<serde_json::Value, String>)
    ensures
        r is Ok <==> is_json_document(raw@),
        r matches Ok(v) ==> view_of(v) == json_of(raw@),
        r matches Err(e) ==> e@ == json_error_text_of(raw@),
{
    serde_json::from_slice(raw).map_err(|e: serde_json::Error| e.to_string())
}

/// Relies on `serde_json::Value::get` with a string key: the member's value
/// of an object, `None` for a missing key or a value that is no object.
#[verifier::external_body]
fn member<'a>(v: &'a serde_json::Value, key: &str) -> (r: Option<&'a serde_json::Value>)
    ensures
        match r {
            None => member_of(view_of(*v), key@) is None,
            Some(m) => member_of(view_of(*v), key@) == Some(view_of(*m)),
        },
{
    v.get(key)
}

/// Relies on `serde_json::Value::is_object`.
#[verifier::external_body]
fn is_object(v: &serde_json::Value) -> (r: bool)
    ensures
        r == (view_of(*v) is Object),
{
    v.is_object()
}

/// Relies on `serde_json::Value::is_null`.
#[verifier::external_body]
fn is_null(v: &serde_json::Value) -> (r: bool)
    ensures
        r == (view_of(*v) is Null),
{
    v.is_null()
}

/// Relies on `serde_json::Value::as_str`: the text of a string value.
#[verifier::external_body]
fn as_text(v: &serde_json::Value) -> (r: Option<&str>)
    ensures
        match r {
            None => !(view_of(*v) is Text),
            Some(t) => view_of(*v) == JsonView::Text(t@),
        },
{
    v.as_str()
}

/// Relies on `serde_json::Value::as_array`: the elements of an array value.
#[verifier::external_body]
fn as_list(v: &serde_json::Value) -> (r: Option<&Vec<serde_json::Value>>)
    ensures
        match r {
            None => !(view_of(*v) is List),
            Some(items) => view_of(*v) == JsonView::List(
                items@.map_values(|x: serde_json::Value| view_of(x)),
            ),
        },
{
    v.as_array()
}

/// Reads the `TailscaleIPs` member of a self entry: absent means none, and
/// anything but an array of strings is refused.
fn read_ips(node: &serde_json::Value) -> (r: Result<Vec<String>, String>)
    ensures
        match entry_ips(view_of(*node)) {
            Err(e) => r is Err && r->Err_0@ == e,
            Ok(ips) => r is Ok && r->Ok_0.deep_view() == ips,
        },
{
    match member(node, "TailscaleIPs") {
        None => {
            let ips: Vec<String> = Vec::new();
            assert(ips.deep_view() =~= Seq::<Seq<char>>::empty());
            Ok(ips)
        },
        Some(v) => match as_list(v) {
            None => Err(String::from_str("`TailscaleIPs` is not an array")),
            Some(items) => {
                let ghost views = items@.map_values(|x: serde_json::Value| view_of(x));
                let mut ips: Vec<String> = Vec::new();
                let mut i: usize = 0;
                while i < items.len()
                    invariant
                        i <= items@.len(),
                        views == items@.map_values(|x: serde_json::Value| view_of(x)),
                        member_of(view_of(*node), "TailscaleIPs"@) == Some(JsonView::List(views)),
                        forall|k: int| 0 <= k < i ==> (#[trigger] views[k]) is Text,
                        ips.deep_view() =~= views.take(i as int).map_values(
                            |x: JsonView| x->Text_0,
                        ),
                    decreases items@.len() - i,
                {
                    assert(views[i as int] == view_of(items@[i as int]));
                    match as_text(&items[i]) {
                        None => {
                            assert(!(views[i as int] is Text));
                            assert(text_list(views) is None);
                            return Err(
                                String::from_str("`TailscaleIPs` holds a value that is not a string"),
                            );
                        },
                        Some(t) => {
                            assert(views[i as int] == view_of(items@[i as int]));
                            assert(views[i as int]->Text_0 == t@);
                            let ghost before = ips.deep_view();
                            ips.push(t.to_owned());
                            assert(ips.deep_view() =~= before.push(t@));
                            assert(views.take(i + 1) =~= views.take(i as int).push(views[i as int]));
                        },
                    }
                    i = i + 1;
                }
                assert(views.take(i as int) =~= views);
                assert(text_list(views) == Some(views.map_values(|x: JsonView| x->Text_0)));
                Ok(ips)
            },
        },
    }
}

/// Reads the `DNSName` member of a self entry: absent or null means none,
/// and anything but a string is refused.
fn read_dns_name(node: &serde_json::Value) -> (r: Result<Option<String>, String>)
    ensures
        match entry_dns_name(view_of(*node)) {
            Err(e) => r is Err && r->Err_0@ == e,
            Ok(d) => r is Ok && r->Ok_0.deep_view() == d,
        },
{
    match member(node, "DNSName") {
        None => Ok(None),
        Some(v) => {
            if is_null(v) {
                Ok(None)
            } else {
                match as_text(v) {
                    None => Err(String::from_str("`DNSName` is not a string")),
                    Some(t) => Ok(Some(t.to_owned())),
                }
            }
        },
    }
}

/// Reads a decoded JSON document as a status report; the error names the
/// part of the document that does not have the expected shape.
pub fn report_from_json(doc: &serde_json::Value) -> (r: Result<StatusReport, String>)
    ensures
        match status_entry(view_of(*doc)) {
            Err(e) => r is Err && r->Err_0@ == e,
            Ok(entry) => r is Ok && report_entry(r->Ok_0) == entry,
        },
{
    if !is_object(doc) {
        return Err(String::from_str("the report is not a JSON object"));
    }
    match member(doc, "Self") {
        None => Ok(StatusReport { self_node: None }),
        Some(node) => {
            if is_null(node) {
                Ok(StatusReport { self_node: None })
            } else if !is_object(node) {
                Err(String::from_str("`Self` is not an object"))
            } else {
                match read_ips(node) {
                    Err(e) => Err(e),
                    Ok(ips) => match read_dns_name(node) {
                        Err(e) => Err(e),
                        Ok(dns_name) => Ok(StatusReport { self_node: Some(SelfNode { ips, dns_name }) }),
                    },
                }
            }
        },
    }
}

} // verus!
