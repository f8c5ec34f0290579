//! The current public address: where to ask for it and how the echo
//! service's reply is read.

use vstd::prelude::*;
use vstd::string::*;
use crate::cloudflare::status_is_success;
use crate::config::IpVersion;

verus! {

/// The seconds after which a request for the address is given up.
pub const RESOLVE_TIMEOUT_SECS: u64 = 10;

/// Why no address was observed. The reconciler treats all three alike; the
/// distinction is kept for whoever reports the failure.
#[derive(Debug, Clone, Copy, PartialEq, Eq, Structural)]
pub enum AddressError {
    Timeout,
    Unreachable,
    EmptyResponse,
}

/// What came back from the echo service.
#[derive(Debug, Clone)]
pub enum EchoReply {
    /// The request ran into its time limit.
    TimedOut,
    /// The request failed otherwise before a response arrived.
    Unreachable,
    Response { status: u16, body: String },
}

/// Whether `c` is white space as Unicode defines it. This is the result of
/// `char::is_whitespace`.
pub uninterp spec fn is_white_space(c: char) -> bool;

/// `char::is_whitespace` of std: whether the character has Unicode's
/// `White_Space` property. The contract only names that result.
#[verifier::external_body]
fn is_whitespace(c: char) -> (r: bool)
    ensures
        r == is_white_space(c),
{
    c.is_whitespace()
}

/// For each character of `s`, whether it is white space.
pub open spec fn white_space_marks(s: Seq<char>) -> Seq<bool> {
    Seq::new(s.len(), |i: int| is_white_space(s[i]))
}

/// The first position at or after `i` that is not marked, or the number of
/// marks if there is none.
pub open spec fn skip_front(marks: Seq<bool>, i: int) -> int
    decreases marks.len() - i,
{
    if 0 <= i < marks.len() && marks[i] {
        skip_front(marks, i + 1)
    } else {
        i
    }
}

/// The greatest position between `lo` and `j` that is `lo` or follows an
/// unmarked position, with marked positions only from it up to `j`.
pub open spec fn skip_back(marks: Seq<bool>, lo: int, j: int) -> int
    decreases j,
{
    if 0 <= lo < j <= marks.len() && marks[j - 1] {
        skip_back(marks, lo, j - 1)
    } else {
        j
    }
}

/// Where what is left begins and ends once the marked positions at both
/// ends are dropped.
pub open spec fn trim_range(marks: Seq<bool>) -> (int, int) {
    let start = skip_front(marks, 0);
    (start, skip_back(marks, start, marks.len() as int))
}

/// `s` without the white space at its two ends.
pub open spec fn trimmed(s: Seq<char>) -> Seq<char> {
    let range = trim_range(white_space_marks(s));
    s.subrange(range.0, range.1)
}

/// Where `skip_front` lands: inside the marks or at their end, after marked
/// positions only, and on an unmarked one.
pub proof fn lemma_skip_front(marks: Seq<bool>, i: int)
    requires
        0 <= i <= marks.len(),
    ensures
        i <= skip_front(marks, i) <= marks.len(),
        forall|k: int| i <= k < skip_front(marks, i) ==> #[trigger] marks[k],
        skip_front(marks, i) < marks.len() ==> !marks[skip_front(marks, i)],
    decreases marks.len() - i,
{
    if i < marks.len() && marks[i] {
        lemma_skip_front(marks, i + 1);
    }
}

/// Where `skip_back` lands: between `lo` and `j`, before marked positions
/// only, and after an unmarked one.
pub proof fn lemma_skip_back(marks: Seq<bool>, lo: int, j: int)
    requires
        0 <= lo <= j <= marks.len(),
    ensures
        lo <= skip_back(marks, lo, j) <= j,
        forall|k: int| skip_back(marks, lo, j) <= k < j ==> #[trigger] marks[k],
        lo < skip_back(marks, lo, j) ==> !marks[skip_back(marks, lo, j) - 1],
    decreases j,
{
    if lo < j && marks[j - 1] {
        lemma_skip_back(marks, lo, j - 1);
    }
}

/// Trimming removes white space and nothing else: the text is white space,
/// then the trimmed text, then white space, and the trimmed text neither
/// begins nor ends with white space.
pub proof fn lemma_trimmed(s: Seq<char>)
    ensures
        exists|front: Seq<char>, back: Seq<char>|
            {
                &&& s == front + trimmed(s) + back
                &&& forall|k: int| 0 <= k < front.len() ==> is_white_space(#[trigger] front[k])
                &&& forall|k: int| 0 <= k < back.len() ==> is_white_space(#[trigger] back[k])
            },
        trimmed(s).len() > 0 ==> !is_white_space(trimmed(s).first()) && !is_white_space(
            trimmed(s).last(),
        ),
{
    let marks = white_space_marks(s);
    let start = skip_front(marks, 0);
    lemma_skip_front(marks, 0);
    let end = skip_back(marks, start, s.len() as int);
    lemma_skip_back(marks, start, s.len() as int);
    let front = s.subrange(0, start);
    let back = s.subrange(end, s.len() as int);
    assert(s =~= front + trimmed(s) + back);
    assert forall|k: int| 0 <= k < front.len() implies is_white_space(#[trigger] front[k]) by {
        assert(front[k] == s[k]);
        assert(marks[k]);
    }
    assert forall|k: int| 0 <= k < back.len() implies is_white_space(#[trigger] back[k]) by {
        assert(back[k] == s[end + k]);
        assert(marks[end + k]);
    }
    if trimmed(s).len() > 0 {
        assert(trimmed(s).first() == s[start]);
        assert(trimmed(s).last() == s[end - 1]);
        assert(!marks[start]);
        assert(!marks[end - 1]);
    }
}

/// Where what is left begins and ends once the marked positions at both
/// ends of `marks` are dropped. With every position marked, and with none
/// at all, nothing is left: the two bounds are equal.
pub fn trim_bounds(marks: &Vec<bool>) -> (bounds: (usize, usize))
    ensures
        (bounds.0 as int, bounds.1 as int) == trim_range(marks@),
        bounds.0 <= bounds.1 <= marks.len(),
{
    let n = marks.len();
    let mut start: usize = 0;
    while start < n && marks[start]
        invariant
            n == marks.len(),
            start <= n,
            skip_front(marks@, 0) == skip_front(marks@, start as int),
        decreases n - start,
    {
        start = start + 1;
    }
    let mut end: usize = n;
    while start < end && marks[end - 1]
        invariant
            n == marks.len(),
            start <= end <= n,
            skip_back(marks@, start as int, n as int) == skip_back(
                marks@,
                start as int,
                end as int,
            ),
        decreases end,
    {
        end = end - 1;
    }
    (start, end)
}

/// For each character of `text`, whether it is white space.
fn mark_white_space(text: &str) -> (marks: Vec<bool>)
    ensures
        marks@ == white_space_marks(text@),
{
    let n = text.unicode_len();
    let mut marks: Vec<bool> = Vec::new();
    let mut i: usize = 0;
    while i < n
        invariant
            n == text@.len(),
            i <= n,
            marks@.len() == i,
            forall|k: int| 0 <= k < i ==> marks@[k] == is_white_space(text@[k]),
        decreases n - i,
    {
        marks.push(is_whitespace(text.get_char(i)));
        i = i + 1;
    }
    assert(marks@ =~= white_space_marks(text@));
    marks
}

/// `text` without the white space at its two ends.
pub fn trim_text(text: &str) -> (r: String)
    ensures
        r@ == trimmed(text@),
{
    let marks = mark_white_space(text);
    let bounds = trim_bounds(&marks);
    String::from_str(text.substring_char(bounds.0, bounds.1))
}

/// The address that a response with the given status and trimmed body
/// yields: the body, if the status reports success and the body is not
/// empty.
pub open spec fn accepted_address(status: u16, body: Seq<char>) -> Result<Seq<char>, AddressError> {
    if !status_is_success(status) {
        Err(AddressError::Unreachable)
    } else if body.len() == 0 {
        Err(AddressError::EmptyResponse)
    } else {
        Ok(body)
    }
}

/// The address that a reply of the echo service yields. A response counts
/// only with a success status and a body that holds more than white space;
/// the address is then the body without the white space around it, and no
/// further check is made of it.
pub open spec fn observed_address(reply: EchoReply) -> Result<Seq<char>, AddressError> {
    match reply {
        EchoReply::TimedOut => Err(AddressError::Timeout),
        EchoReply::Unreachable => Err(AddressError::Unreachable),
        EchoReply::Response { status, body } => accepted_address(status, trimmed(body@)),
    }
}

/// Decides on a response whose body is already trimmed.
pub fn accept_address(status: u16, body: String) -> (r: Result<String, AddressError>)
    ensures
        match accepted_address(status, body@) {
            Ok(address) => r matches Ok(text) && text@ == address,
            Err(e) => r == Err::<String, AddressError>(e),
        },
{
    if !(200 <= status && status < 300) {
        Err(AddressError::Unreachable)
    } else if body.as_str().unicode_len() == 0 {
        Err(AddressError::EmptyResponse)
    } else {
        Ok(body)
    }
}

/// Reads the reply of the echo service.
pub fn address_from_reply(reply: &EchoReply) -> (r: Result<String, AddressError>)
    ensures
        match observed_address(*reply) {
            Ok(address) => r matches Ok(text) && text@ == address,
            Err(e) => r == Err::<String, AddressError>(e),
        },
{
    match reply {
        EchoReply::TimedOut => Err(AddressError::Timeout),
        EchoReply::Unreachable => Err(AddressError::Unreachable),
        EchoReply::Response { status, body } => accept_address(*status, trim_text(body.as_str())),
    }
}

/// The address of the echo service for each address family.
pub open spec fn echo_endpoint_text(version: IpVersion) -> Seq<char> {
    match version {
        IpVersion::V4 => "https://4.ipw.cn"@,
        IpVersion::V6 => "https://6.ipw.cn"@,
    }
}

/// Where to ask for the current address of the family `version`.
pub fn echo_endpoint(version: IpVersion) -> (url: &'static str)
    ensures
        url@ == echo_endpoint_text(version),
{
    match version {
        IpVersion::V4 => "https://4.ipw.cn",
        IpVersion::V6 => "https://6.ipw.cn",
    }
}

/// The two address families are asked for at different endpoints.
pub proof fn lemma_endpoints_differ()
    ensures
        echo_endpoint_text(IpVersion::V4) != echo_endpoint_text(IpVersion::V6),
{
    reveal_strlit("https://4.ipw.cn");
    reveal_strlit("https://6.ipw.cn");
    assert("https://4.ipw.cn"@[8] == '4');
    assert("https://6.ipw.cn"@[8] == '6');
}

} // verus!
