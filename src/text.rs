//! Text normalisation: whitespace trimming, lossy decoding of process
//! output, the DNS-name rule and the choice of failure details.
use vstd::prelude::*;

verus! {

/// Unicode's White_Space property, the whitespace that `str::trim` removes.
pub open spec fn is_white_space(c: char) -> bool {
    let u = c as int;
    ||| 0x9 <= u <= 0xD
    ||| u == 0x20
    ||| u == 0x85
    ||| u == 0xA0
    ||| u == 0x1680
    ||| 0x2000 <= u <= 0x200A
    ||| u == 0x2028
    ||| u == 0x2029
    ||| u == 0x202F
    ||| u == 0x205F
    ||| u == 0x3000
}

/// `s` without its leading whitespace.
pub open spec fn trim_start_spec(s: Seq<char>) -> Seq<char>
    decreases s.len(),
{
    if s.len() > 0 && is_white_space(s[0]) {
        trim_start_spec(s.drop_first())
    } else {
        s
    }
}

/// `s` without its trailing whitespace.
pub open spec fn trim_end_spec(s: Seq<char>) -> Seq<char>
    decreases s.len(),
{
    if s.len() > 0 && is_white_space(s.last()) {
        trim_end_spec(s.drop_last())
    } else {
        s
    }
}

/// `s` without leading and trailing whitespace.
pub open spec fn trim_spec(s: Seq<char>) -> Seq<char> {
    trim_end_spec(trim_start_spec(s))
}

/// The text that `String::from_utf8_lossy` makes of `b`.
pub uninterp spec fn lossy_text_of(b: Seq<u8>) -> Seq<char>;

/// Relies on `str::trim`: removes leading and trailing characters with the
/// White_Space property.
#[verifier::external_body]
fn trim_text(s: &str) -> (r: String)
    ensures
        r@ == trim_spec(s@),
{
    s.trim().to_owned()
}

/// Relies on `String::from_utf8_lossy`: valid UTF-8 decodes as it is, and
/// the result depends on the bytes alone.
#[verifier::external_body]
fn lossy_text(b: &[u8]) -> (r: String)
    ensures
        r@ == lossy_text_of(b@),
        vstd::utf8::valid_utf8(b@) ==> r@ == vstd::utf8::decode_utf8(b@),
{
    String::from_utf8_lossy(b).into_owned()
}

/// `name` without a single trailing root dot, if it has one.
pub open spec fn without_root_dot(name: Seq<char>) -> Seq<char> {
    if name.len() > 0 && name.last() == '.' {
        name.drop_last()
    } else {
        name
    }
}

/// The DNS name kept for a reported one: one trailing dot stripped, then
/// trimmed; a name that is then empty counts as absent.
pub open spec fn normalized_dns_name(name: Option<Seq<char>>) -> Option<Seq<char>> {
    match name {
        None => None,
        Some(n) => {
            let t = trim_spec(without_root_dot(n));
            if t.len() == 0 {
                None
            } else {
                Some(t)
            }
        },
    }
}

/// Normalises a reported DNS name.
pub fn normalize_dns_name(name: Option<String>) -> (r: Option<String>)
    ensures
        r.deep_view() == normalized_dns_name(name.deep_view()),
{
    match name {
        None => None,
        Some(n) => {
            let s = n.as_str();
            let len = s.unicode_len();
            let base: &str = if len > 0 && s.get_char(len - 1) == '.' {
                s.substring_char(0, len - 1)
            } else {
                s
            };
            assert(base@ == without_root_dot(n@));
            let t = trim_text(base);
            if t.as_str().is_empty() {
                None
            } else {
                Some(t)
            }
        },
    }
}

/// What a failing tool run reports: its error text when there is any,
/// else its output text, else a fixed notice.
pub open spec fn chosen_details(stderr_text: Seq<char>, stdout_text: Seq<char>) -> Seq<char> {
    if stderr_text.len() > 0 {
        stderr_text
    } else if stdout_text.len() > 0 {
        stdout_text
    } else {
        "tailscale returned a non-zero exit code"@
    }
}

/// Picks the details of a failing run from its trimmed error and output
/// texts.
pub fn choose_details(stderr_text: String, stdout_text: String) -> (r: String)
    ensures
        r@ == chosen_details(stderr_text@, stdout_text@),
{
    if !stderr_text.as_str().is_empty() {
        stderr_text
    } else if !stdout_text.as_str().is_empty() {
        stdout_text
    } else {
        String::from_str("tailscale returned a non-zero exit code")
    }
}

/// The text of a stream's bytes: decoded as they are where they are valid
/// UTF-8, else decoded lossily.
pub open spec fn stream_text(b: Seq<u8>) -> Seq<char> {
    if vstd::utf8::valid_utf8(b) {
        vstd::utf8::decode_utf8(b)
    } else {
        lossy_text_of(b)
    }
}

/// The details of a failing run, from the raw bytes of its two streams.
pub fn failure_details(stderr: &[u8], stdout: &[u8]) -> (r: String)
    ensures
        r@ == chosen_details(trim_spec(stream_text(stderr@)), trim_spec(stream_text(stdout@))),
{
    let err_text = lossy_text(stderr);
    let out_text = lossy_text(stdout);
    choose_details(trim_text(err_text.as_str()), trim_text(out_text.as_str()))
}

} // verus!
