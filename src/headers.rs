use vstd::prelude::*;

verus! {

/// Name of the header that carries the bearer credential.
pub const AUTHORIZATION: &'static str = "Authorization";

/// Name of the header that states the accepted response type.
pub const ACCEPT: &'static str = "Accept";

/// Name of the header that states the type of a request body.
pub const CONTENT_TYPE: &'static str = "Content-Type";

/// Media type of every body and response of the API.
pub const JSON: &'static str = "application/json";

/// A header as a pair of name and value.
pub type HeaderPair = (Seq<char>, Seq<char>);

/// One request header.
#[derive(Clone, Debug, PartialEq, Eq)]
pub struct Header {
    pub name: String,
    pub value: String,
}

impl View for Header {
    type V = HeaderPair;

    open spec fn view(&self) -> HeaderPair {
        (self.name@, self.value@)
    }
}

impl Header {
    pub fn new(name: &str, value: &str) -> (r: Header)
        ensures
            r@ == (name@, value@),
    {
        Header { name: String::from_str(name), value: String::from_str(value) }
    }
}

/// The views of a list of headers.
pub open spec fn pairs_of(hs: Seq<Header>) -> Seq<HeaderPair> {
    hs.map_values(|h: Header| h@)
}

/// A character that the HTTP stack takes in a header value: a tab, or any
/// character from the space on but DEL. A character beyond ASCII is encoded
/// as bytes of 128 and above, which it takes too.
pub open spec fn accepted_char(c: char) -> bool {
    c == '\t' || (' ' <= c && c != '\u{7f}')
}

/// A text that the HTTP stack takes as a header value.
pub open spec fn accepted_value(s: Seq<char>) -> bool {
    forall|i: int| 0 <= i < s.len() ==> accepted_char(#[trigger] s[i])
}

/// A character that this library sends in a header value: a tab, or a
/// visible ASCII character or space (32 to 126).
pub open spec fn valid_value_char(c: char) -> bool {
    c == '\t' || (' ' <= c && c <= '~')
}

/// A text that this library sends as a header value.
pub open spec fn valid_value(s: Seq<char>) -> bool {
    forall|i: int| 0 <= i < s.len() ==> valid_value_char(#[trigger] s[i])
}

/// The name of the first header in `hs` whose value may not be sent.
pub open spec fn first_invalid(hs: Seq<HeaderPair>) -> Option<Seq<char>>
    decreases hs.len(),
{
    if hs.len() == 0 {
        None
    } else if !valid_value(hs[0].1) {
        Some(hs[0].0)
    } else {
        first_invalid(hs.drop_first())
    }
}

/// Relies on reqwest::header::HeaderValue::from_str (http 1.x): it accepts a
/// string exactly when every byte of it is at least 32 and not 127, or is a
/// tab.
#[verifier::external_body]
pub(crate) fn header_value_accepted(s: &str) -> (r: bool)
    ensures
        r == accepted_value(s@),
{
    reqwest::header::HeaderValue::from_str(s).is_ok()
}

/// Whether `s` may be sent as a header value: the HTTP stack must take it, and
/// it must hold ASCII alone.
pub fn value_sendable(s: &str) -> (r: bool)
    ensures
        r == valid_value(s@),
{
    let ascii = s.is_ascii();
    let accepted = header_value_accepted(s);
    proof {
        if ascii && accepted {
            assert forall|i: int| 0 <= i < s@.len() implies valid_value_char(#[trigger] s@[i]) by {
                assert(accepted_char(s@[i]));
                assert('\0' <= s@[i] <= '\u{7f}');
            }
        }
        if valid_value(s@) {
            assert forall|i: int| 0 <= i < s@.len() implies '\0' <= #[trigger] s@[i] <= '\u{7f}' by {
                assert(valid_value_char(s@[i]));
            }
            assert forall|i: int| 0 <= i < s@.len() implies accepted_char(#[trigger] s@[i]) by {
                assert(valid_value_char(s@[i]));
            }
        }
    }
    ascii && accepted
}

/// The case of an ASCII letter set aside: `c` as a code point, lower case.
pub open spec fn folded(c: char) -> u32 {
    if 'A' <= c && c <= 'Z' {
        (c as u32 + 32) as u32
    } else {
        c as u32
    }
}

/// Header names are the same when they differ in the case of ASCII letters
/// alone.
pub open spec fn same_name(a: Seq<char>, b: Seq<char>) -> bool {
    a.len() == b.len() && forall|i: int| 0 <= i < a.len() ==> folded(#[trigger] a[i]) == folded(b[i])
}

fn fold_char(c: char) -> (r: u32)
    ensures
        r == folded(c),
{
    if 'A' <= c && c <= 'Z' {
        c as u32 + 32
    } else {
        c as u32
    }
}

/// Compares two header names without regard to the case of ASCII letters.
pub fn names_match(a: &str, b: &str) -> (r: bool)
    ensures
        r == same_name(a@, b@),
{
    let n = a.unicode_len();
    if n != b.unicode_len() {
        return false;
    }
    let mut i: usize = 0;
    while i < n
        invariant
            n == a@.len(),
            n == b@.len(),
            i <= n,
            forall|k: int| 0 <= k < i ==> folded(#[trigger] a@[k]) == folded(b@[k]),
        decreases n - i,
    {
        if fold_char(a.get_char(i)) != fold_char(b.get_char(i)) {
            return false;
        }
        i = i + 1;
    }
    true
}

/// Finds the first header whose value the HTTP stack would refuse.
pub fn find_invalid(hs: &Vec<Header>) -> (r: Option<usize>)
    ensures
        match r {
            None => first_invalid(pairs_of(hs@)) is None,
            Some(i) => i < hs@.len() && first_invalid(pairs_of(hs@)) == Some(hs@[i as int].name@),
        },
{
    let mut i: usize = 0;
    assert(pairs_of(hs@).subrange(0, hs@.len() as int) =~= pairs_of(hs@));
    while i < hs.len()
        invariant
            i <= hs@.len(),
            first_invalid(pairs_of(hs@)) == first_invalid(pairs_of(hs@).subrange(i as int, hs@.len() as int)),
        decreases hs@.len() - i,
    {
        let ghost rest = pairs_of(hs@).subrange(i as int, hs@.len() as int);
        assert(rest.drop_first() =~= pairs_of(hs@).subrange(i + 1, hs@.len() as int));
        if !value_sendable(hs[i].value.as_str()) {
            return Some(i);
        }
        i = i + 1;
    }
    assert(pairs_of(hs@).subrange(i as int, hs@.len() as int).len() == 0);
    None
}

/// `hs` with `h` put in: `h` replaces the first header of the same name, or
/// is appended when there is none.
pub open spec fn replace_or_push(hs: Seq<HeaderPair>, h: HeaderPair) -> Seq<HeaderPair>
    decreases hs.len(),
{
    if hs.len() == 0 {
        seq![h]
    } else if same_name(hs[0].0, h.0) {
        seq![h] + hs.drop_first()
    } else {
        seq![hs[0]] + replace_or_push(hs.drop_first(), h)
    }
}

/// `hs` with the header `h` of an operation put in. The authorization header
/// is never replaced, whatever the case of the name that would replace it.
pub open spec fn put_header(hs: Seq<HeaderPair>, h: HeaderPair) -> Seq<HeaderPair> {
    if same_name(h.0, AUTHORIZATION@) {
        hs
    } else {
        replace_or_push(hs, h)
    }
}

/// The headers `extra` put into `base` one after the other, so that a later
/// one wins over an earlier one of the same name.
pub open spec fn merge_headers(base: Seq<HeaderPair>, extra: Seq<HeaderPair>) -> Seq<HeaderPair>
    decreases extra.len(),
{
    if extra.len() == 0 {
        base
    } else {
        merge_headers(put_header(base, extra[0]), extra.drop_first())
    }
}

/// The value of the first header in `hs` of the same name as `name`.
pub open spec fn header_value(hs: Seq<HeaderPair>, name: Seq<char>) -> Option<Seq<char>>
    decreases hs.len(),
{
    if hs.len() == 0 {
        None
    } else if same_name(hs[0].0, name) {
        Some(hs[0].1)
    } else {
        header_value(hs.drop_first(), name)
    }
}

/// Putting a header in never moves or changes an authorization header that
/// comes first.
proof fn lemma_put_keeps_authorization(hs: Seq<HeaderPair>, h: HeaderPair)
    requires
        hs.len() > 0,
        hs[0].0 == AUTHORIZATION@,
    ensures
        put_header(hs, h).len() > 0,
        put_header(hs, h)[0] == hs[0],
{
    if !same_name(h.0, AUTHORIZATION@) {
        assert(!same_name(hs[0].0, h.0));
        assert(replace_or_push(hs, h) == seq![hs[0]] + replace_or_push(hs.drop_first(), h));
    }
}

/// Whatever headers are merged onto a list that starts with an authorization
/// header, that header stays first and keeps its value.
pub proof fn lemma_merge_keeps_authorization(base: Seq<HeaderPair>, extra: Seq<HeaderPair>)
    requires
        base.len() > 0,
        base[0].0 == AUTHORIZATION@,
    ensures
        merge_headers(base, extra).len() > 0,
        merge_headers(base, extra)[0] == base[0],
        header_value(merge_headers(base, extra), AUTHORIZATION@) == Some(base[0].1),
    decreases extra.len(),
{
    if extra.len() > 0 {
        lemma_put_keeps_authorization(base, extra[0]);
        lemma_merge_keeps_authorization(put_header(base, extra[0]), extra.drop_first());
    }
}

proof fn lemma_replace_at(hs: Seq<HeaderPair>, h: HeaderPair, j: int)
    requires
        0 <= j < hs.len(),
        same_name(hs[j].0, h.0),
        forall|k: int| 0 <= k < j ==> !same_name(hs[k].0, h.0),
    ensures
        replace_or_push(hs, h) == hs.update(j, h),
    decreases j,
{
    if j == 0 {
        assert(seq![h] + hs.drop_first() =~= hs.update(0, h));
    } else {
        assert(!same_name(hs[0].0, h.0));
        let rest = hs.drop_first();
        assert forall|k: int| 0 <= k < j - 1 implies !same_name(rest[k].0, h.0) by {
            assert(rest[k] == hs[k + 1]);
        }
        lemma_replace_at(rest, h, j - 1);
        assert(seq![hs[0]] + rest.update(j - 1, h) =~= hs.update(j, h));
    }
}

proof fn lemma_push_when_absent(hs: Seq<HeaderPair>, h: HeaderPair)
    requires
        forall|k: int| 0 <= k < hs.len() ==> !same_name(hs[k].0, h.0),
    ensures
        replace_or_push(hs, h) == hs.push(h),
    decreases hs.len(),
{
    if hs.len() == 0 {
        assert(seq![h] =~= hs.push(h));
    } else {
        let rest = hs.drop_first();
        assert(!same_name(hs[0].0, h.0));
        assert forall|k: int| 0 <= k < rest.len() implies !same_name(rest[k].0, h.0) by {
            assert(rest[k] == hs[k + 1]);
        }
        lemma_push_when_absent(rest, h);
        assert(seq![hs[0]] + rest.push(h) =~= hs.push(h));
    }
}

/// Puts the header `h` of an operation into `hs`.
pub fn put(hs: &mut Vec<Header>, h: Header)
    ensures
        pairs_of(final(hs)@) == put_header(pairs_of(old(hs)@), h@),
{
    if names_match(h.name.as_str(), AUTHORIZATION) {
        return;
    }
    let ghost before = pairs_of(hs@);
    let mut j: usize = 0;
    while j < hs.len()
        invariant
            j <= hs@.len(),
            pairs_of(hs@) == before,
            before == pairs_of(old(hs)@),
            !same_name(h@.0, AUTHORIZATION@),
            forall|k: int| 0 <= k < j ==> !same_name(before[k].0, h@.0),
        decreases hs@.len() - j,
    {
        if names_match(hs[j].name.as_str(), h.name.as_str()) {
            proof {
                assert(before[j as int] == hs@[j as int]@);
                lemma_replace_at(before, h@, j as int);
            }
            hs.set(j, h);
            assert(pairs_of(hs@) =~= before.update(j as int, h@));
            return;
        }
        assert(before[j as int] == hs@[j as int]@);
        j = j + 1;
    }
    proof {
        lemma_push_when_absent(before, h@);
    }
    hs.push(h);
    assert(pairs_of(hs@) =~= before.push(h@));
}

/// Puts the headers `extra`, in order, into `hs`.
pub fn merge(hs: &mut Vec<Header>, extra: Vec<Header>)
    ensures
        pairs_of(final(hs)@) == merge_headers(pairs_of(old(hs)@), pairs_of(extra@)),
{
    let ghost target = merge_headers(pairs_of(hs@), pairs_of(extra@));
    let mut rest = extra;
    while rest.len() > 0
        invariant
            merge_headers(pairs_of(hs@), pairs_of(rest@)) == target,
        decreases rest@.len(),
    {
        let ghost pending = pairs_of(rest@);
        let h = rest.remove(0);
        assert(pairs_of(rest@) =~= pending.drop_first());
        put(hs, h);
    }
}

} // verus!
