use vstd::prelude::*;
use vstd::string::StringSliceAdditionalSpecFns;
use base64::Engine;

verus! {

/// What base64 decoding with the standard alphabet and padding makes of `input`,
/// or `None` when `input` is not such base64.
pub uninterp spec fn base64_standard_decoded(input: Seq<u8>) -> Option<Seq<u8>>;

/// Relies on base64's `STANDARD` engine (`Engine::decode`), which decodes standard
/// alphabet, padded base64 and fails on any other input; the outcome depends on
/// the input bytes alone.
#[verifier::external_body]
fn decode_base64(input: &[u8]) -> (r: Option<Vec<u8>>)
    ensures
        match r {
            Some(v) => base64_standard_decoded(input@) == Some(v@),
            None => base64_standard_decoded(input@) is None,
        },
{
    base64::engine::general_purpose::STANDARD.decode(input).ok()
}

/// The scheme prefix of a basic authorization header: `Basic ` in ASCII.
pub open spec fn basic_prefix() -> Seq<u8> {
    seq![66u8, 97u8, 115u8, 105u8, 99u8, 32u8]
}

/// The position of the first `:` in `d`, or `d.len()` when there is none.
pub open spec fn colon_at(d: Seq<u8>, i: int) -> int
    decreases d.len() - i,
{
    if i >= d.len() {
        d.len() as int
    } else if d[i] == 58u8 {
        i
    } else {
        colon_at(d, i + 1)
    }
}

/// Decoded credentials `user:password` name the given user and password. The user
/// is what stands before the first `:`, the password what follows it (empty when
/// there is no `:`).
pub open spec fn credentials_match(d: Seq<u8>, user: Seq<u8>, password: Seq<u8>) -> bool {
    let c = colon_at(d, 0);
    &&& d.subrange(0, c) == user
    &&& (if c < d.len() {
        d.subrange(c + 1, d.len() as int)
    } else {
        Seq::<u8>::empty()
    }) == password
}

/// An authorization header value grants access: it is `Basic ` followed by base64
/// of credentials that match.
pub open spec fn basic_auth_ok(header: Seq<u8>, user: Seq<u8>, password: Seq<u8>) -> bool {
    &&& header.len() >= 6
    &&& header.take(6) == basic_prefix()
    &&& match base64_standard_decoded(header.skip(6)) {
        Some(d) => credentials_match(d, user, password),
        None => false,
    }
}

proof fn lemma_colon_at_bounds(d: Seq<u8>, i: int)
    requires
        0 <= i <= d.len(),
    ensures
        i <= colon_at(d, i) <= d.len(),
    decreases d.len() - i,
{
    if i < d.len() && d[i] != 58u8 {
        lemma_colon_at_bounds(d, i + 1);
    }
}

fn bytes_equal(a: &[u8], from: usize, to: usize, b: &[u8]) -> (r: bool)
    requires
        from <= to <= a@.len(),
    ensures
        r == (a@.subrange(from as int, to as int) == b@),
{
    if to - from != b.len() {
        return false;
    }
    let mut i: usize = 0;
    while i < b.len()
        invariant
            from <= to <= a@.len(),
            to - from == b@.len(),
            0 <= i <= b@.len(),
            forall|k: int| 0 <= k < i ==> a@[from + k] == b@[k],
        decreases b@.len() - i,
    {
        if a[from + i] != b[i] {
            proof {
                assert(a@.subrange(from as int, to as int)[i as int] != b@[i as int]);
            }
            return false;
        }
        i = i + 1;
    }
    proof {
        assert(a@.subrange(from as int, to as int) =~= b@);
    }
    true
}

/// Whether decoded credentials name `username` and `password`.
pub fn check_credentials(decoded: &[u8], username: &str, password: &str) -> (r: bool)
    ensures
        r == credentials_match(decoded@, username.spec_bytes(), password.spec_bytes()),
{
    let mut c: usize = 0;
    while c < decoded.len() && decoded[c] != 58u8
        invariant
            0 <= c <= decoded@.len(),
            colon_at(decoded@, 0) == colon_at(decoded@, c as int),
        decreases decoded@.len() - c,
    {
        c = c + 1;
    }
    proof {
        lemma_colon_at_bounds(decoded@, c as int);
    }
    let user = username.as_bytes();
    let pass = password.as_bytes();
    if !bytes_equal(decoded, 0, c, user) {
        return false;
    }
    if c < decoded.len() {
        bytes_equal(decoded, c + 1, decoded.len(), pass)
    } else {
        proof {
            assert(decoded@.subrange(c as int, c as int) =~= Seq::<u8>::empty());
        }
        bytes_equal(decoded, c, c, pass)
    }
}

/// Whether an authorization header value grants access to `username` with `password`.
pub fn basic_auth_accepts(header: &[u8], username: &str, password: &str) -> (r: bool)
    ensures
        r == basic_auth_ok(header@, username.spec_bytes(), password.spec_bytes()),
{
    let prefix: [u8; 6] = [66u8, 97u8, 115u8, 105u8, 99u8, 32u8];
    if header.len() < 6 {
        return false;
    }
    let ghost pre = prefix@;
    assert(pre =~= basic_prefix());
    if !bytes_equal(header, 0, 6, prefix.as_slice()) {
        assert(header@.subrange(0, 6) =~= header@.take(6));
        return false;
    }
    assert(header@.subrange(0, 6) =~= header@.take(6));
    let mut rest: Vec<u8> = Vec::new();
    let mut i: usize = 6;
    while i < header.len()
        invariant
            6 <= i <= header@.len(),
            rest@ =~= header@.subrange(6, i as int),
        decreases header@.len() - i,
    {
        rest.push(header[i]);
        i = i + 1;
    }
    assert(rest@ =~= header@.skip(6));
    match decode_base64(rest.as_slice()) {
        Some(decoded) => check_credentials(decoded.as_slice(), username, password),
        None => false,
    }
}

} // verus!
