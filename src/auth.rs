//! Reading the credentials of a request from its `Authorization` header, and
//! the verdicts on what the ledger answers about them.
use base64::Engine;
use vstd::prelude::*;
use vstd::string::{StrSliceExecFns, StringExecFns};
use vstd::utf8::{decode_utf8, valid_utf8};

verus! {

/// Why a request is refused entry.
#[derive(Clone, Copy, Debug, PartialEq, Eq, Structural)]
pub enum AuthError {
    /// The request carries no readable `Authorization` header.
    Unauthorized,
    /// The header is not `Basic` authentication in base64.
    ExpectationFailed,
    /// The decoded credentials are not UTF-8.
    InternalServerError,
    /// The ledger does not know the user, or the password is wrong.
    NotFound,
}

/// A user name and a password.
#[derive(Clone, Debug, PartialEq, Eq)]
pub struct Credentials {
    pub username: String,
    pub password: String,
}

/// The bytes that the standard base64 alphabet, with padding, decodes `s`
/// to, where it is valid base64.
pub uninterp spec fn base64_decoded(s: Seq<char>) -> Option<Seq<u8>>;

/// Relies on `base64`'s standard engine: the bytes that `s` decodes to, or
/// nothing where `s` is not valid base64.
#[verifier::external_body]
fn base64_decode(s: &str) -> (r: Option<Vec<u8>>)
    ensures
        match r {
            Some(b) => base64_decoded(s@) == Some(b@),
            None => base64_decoded(s@) is None,
        },
{
    base64::engine::general_purpose::STANDARD.decode(s.as_bytes()).ok()
}

/// Relies on `String::from_utf8`: the text that `b` encodes, where it is
/// valid UTF-8.
#[verifier::external_body]
fn utf8_string(b: Vec<u8>) -> (r: Option<String>)
    ensures
        match r {
            Some(s) => valid_utf8(b@) && s@ == decode_utf8(b@),
            None => !valid_utf8(b@),
        },
{
    String::from_utf8(b).ok()
}

/// The scheme that the header must start with.
pub open spec fn basic_prefix() -> Seq<char> {
    seq!['B', 'a', 's', 'i', 'c', ' ']
}

/// `s` with every occurrence of `p` taken out, left to right, as
/// `str::replace(p, "")` gives it.
pub open spec fn remove_all(s: Seq<char>, p: Seq<char>) -> Seq<char>
    decreases s.len(),
{
    if s.len() == 0 {
        s
    } else if 0 < p.len() <= s.len() && s.subrange(0, p.len() as int) == p {
        remove_all(s.subrange(p.len() as int, s.len() as int), p)
    } else {
        seq![s[0]] + remove_all(s.subrange(1, s.len() as int), p)
    }
}

/// The part of `s` before its first `c`; all of `s` where there is none.
pub open spec fn before_first(s: Seq<char>, c: char) -> Seq<char>
    decreases s.len(),
{
    if s.len() == 0 {
        s
    } else if s[0] == c {
        Seq::<char>::empty()
    } else {
        seq![s[0]] + before_first(s.drop_first(), c)
    }
}

/// The part of `s` after its last `c`; all of `s` where there is none.
pub open spec fn after_last(s: Seq<char>, c: char) -> Seq<char>
    decreases s.len(),
{
    if s.len() == 0 {
        s
    } else if s.last() == c {
        Seq::<char>::empty()
    } else {
        after_last(s.drop_last(), c).push(s.last())
    }
}

/// The user name and password that the header `header` carries: `Basic `,
/// then base64 of UTF-8 text; the name is the text before its first `:`,
/// the password the text after its last `:`.
pub open spec fn basic_credentials(header: Option<Seq<char>>) -> Result<(Seq<char>, Seq<char>), AuthError> {
    match header {
        None => Err(AuthError::Unauthorized),
        Some(h) => if !(basic_prefix().len() <= h.len() && h.subrange(0, basic_prefix().len() as int) == basic_prefix()) {
            Err(AuthError::ExpectationFailed)
        } else {
            match base64_decoded(remove_all(h, basic_prefix())) {
                None => Err(AuthError::ExpectationFailed),
                Some(b) => if !valid_utf8(b) {
                    Err(AuthError::InternalServerError)
                } else {
                    let t = decode_utf8(b);
                    Ok((before_first(t, ':'), after_last(t, ':')))
                },
            }
        },
    }
}

/// The text of the header, where there is one.
pub open spec fn header_text(header: Option<&str>) -> Option<Seq<char>> {
    match header {
        Some(h) => Some(h@),
        None => None,
    }
}

proof fn lemma_before_first(s: Seq<char>, c: char, f: int)
    requires
        0 <= f <= s.len(),
        forall|j: int| 0 <= j < f ==> s[j] != c,
        f == s.len() || s[f] == c,
    ensures
        before_first(s, c) == s.subrange(0, f),
    decreases s.len(),
{
    if s.len() > 0 && f > 0 {
        lemma_before_first(s.drop_first(), c, f - 1);
        assert(seq![s[0]] + s.drop_first().subrange(0, f - 1) =~= s.subrange(0, f));
    } else if s.len() == 0 {
        assert(s.subrange(0, 0) =~= s);
    } else {
        assert(s.subrange(0, 0) =~= Seq::<char>::empty());
    }
}

proof fn lemma_after_last(s: Seq<char>, c: char, l: int)
    requires
        0 <= l <= s.len(),
        forall|j: int| l <= j < s.len() ==> s[j] != c,
        l == 0 || s[l - 1] == c,
    ensures
        after_last(s, c) == s.subrange(l, s.len() as int),
    decreases s.len(),
{
    if s.len() > l {
        lemma_after_last(s.drop_last(), c, l);
        assert(s.drop_last().subrange(l, s.len() - 1).push(s.last()) =~= s.subrange(l, s.len() as int));
    } else if s.len() == 0 {
        assert(s.subrange(0, 0) =~= s);
    } else {
        assert(s.subrange(l, l) =~= Seq::<char>::empty());
    }
}

/// Whether the six characters of `s` from `i` are `Basic `.
fn basic_prefix_at(s: &str, n: usize, i: usize) -> (r: bool)
    requires
        n == s@.len(),
        i <= n,
    ensures
        r == (i + 6 <= n && s@.subrange(i as int, i + 6) == basic_prefix()),
{
    if n - i < 6 {
        return false;
    }
    let r = s.get_char(i) == 'B' && s.get_char(i + 1) == 'a' && s.get_char(i + 2) == 's'
        && s.get_char(i + 3) == 'i' && s.get_char(i + 4) == 'c' && s.get_char(i + 5) == ' ';
    assert(r ==> s@.subrange(i as int, i + 6) =~= basic_prefix());
    assert(s@.subrange(i as int, i + 6) == basic_prefix() ==> s@.subrange(i as int, i + 6)[0] == 'B'
        && s@.subrange(i as int, i + 6)[1] == 'a' && s@.subrange(i as int, i + 6)[2] == 's'
        && s@.subrange(i as int, i + 6)[3] == 'i' && s@.subrange(i as int, i + 6)[4] == 'c'
        && s@.subrange(i as int, i + 6)[5] == ' ');
    r
}

/// `h` with every `Basic ` taken out.
fn remove_basic(h: &str) -> (r: String)
    ensures
        r@ == remove_all(h@, basic_prefix()),
{
    let n = h.unicode_len();
    let mut out = String::new();
    let mut seg: usize = 0;
    let mut i: usize = 0;
    assert(h@.subrange(0, n as int) == h@);
    while i < n
        invariant
            seg <= i <= n,
            n == h@.len(),
            out@ + h@.subrange(seg as int, i as int) + remove_all(h@.subrange(i as int, n as int), basic_prefix())
                == remove_all(h@, basic_prefix()),
        decreases n - i,
    {
        let ghost rest = h@.subrange(i as int, n as int);
        if basic_prefix_at(h, n, i) {
            assert(rest.subrange(0, 6) == h@.subrange(i as int, i + 6));
            assert(rest.subrange(6, rest.len() as int) == h@.subrange(i + 6, n as int));
            assert(basic_prefix().len() == 6);
            assert(remove_all(rest, basic_prefix()) == remove_all(h@.subrange(i + 6, n as int), basic_prefix()));
            let ghost before = out@;
            out.append(h.substring_char(seg, i));
            assert(out@ == before + h@.subrange(seg as int, i as int));
            i = i + 6;
            seg = i;
            assert(h@.subrange(seg as int, i as int) =~= Seq::<char>::empty());
            assert(out@ + h@.subrange(seg as int, i as int) =~= out@);
        } else {
            assert(rest.subrange(1, rest.len() as int) == h@.subrange(i + 1, n as int));
            assert(rest[0] == h@[i as int]);
            assert(basic_prefix().len() == 6);
            assert(i + 6 <= n ==> rest.subrange(0, 6) == h@.subrange(i as int, i + 6));
            assert(remove_all(rest, basic_prefix()) == seq![h@[i as int]] + remove_all(h@.subrange(i + 1, n as int), basic_prefix()));
            assert(h@.subrange(seg as int, i + 1) =~= h@.subrange(seg as int, i as int) + seq![h@[i as int]]);
            let ghost a = out@;
            let ghost b = h@.subrange(seg as int, i as int);
            let ghost c = remove_all(h@.subrange(i + 1, n as int), basic_prefix());
            assert(a + b + (seq![h@[i as int]] + c) =~= a + (b + seq![h@[i as int]]) + c);
            i = i + 1;
        }
    }
    assert(h@.subrange(i as int, n as int) =~= Seq::<char>::empty());
    out.append(h.substring_char(seg, n));
    assert(out@ =~= remove_all(h@, basic_prefix()));
    out
}

/// The text before the first `:` of `t`, and the text after its last `:`.
fn split_credentials(t: &str) -> (r: (String, String))
    ensures
        r.0@ == before_first(t@, ':'),
        r.1@ == after_last(t@, ':'),
{
    let n = t.unicode_len();
    let mut f: usize = 0;
    while f < n && t.get_char(f) != ':'
        invariant
            f <= n,
            n == t@.len(),
            forall|j: int| 0 <= j < f ==> t@[j] != ':',
        decreases n - f,
    {
        f = f + 1;
    }
    proof {
        lemma_before_first(t@, ':', f as int);
    }
    let mut l: usize = n;
    while l > 0 && t.get_char(l - 1) != ':'
        invariant
            l <= n,
            n == t@.len(),
            forall|j: int| l <= j < n ==> t@[j] != ':',
        decreases l,
    {
        l = l - 1;
    }
    proof {
        lemma_after_last(t@, ':', l as int);
    }
    (String::from_str(t.substring_char(0, f)), String::from_str(t.substring_char(l, n)))
}

/// The credentials that the `Authorization` header `header` carries, or why
/// it carries none.
pub fn parse_basic_auth(header: Option<&str>) -> (r: Result<Credentials, AuthError>)
    ensures
        match r {
            Ok(c) => basic_credentials(header_text(header)) is Ok && basic_credentials(header_text(header))->Ok_0
                == (c.username@, c.password@),
            Err(e) => basic_credentials(header_text(header)) is Err && basic_credentials(header_text(header))->Err_0
                == e,
        },
{
    let h = match header {
        Some(h) => h,
        None => {
            return Err(AuthError::Unauthorized);
        },
    };
    let n = h.unicode_len();
    if !basic_prefix_at(h, n, 0) {
        return Err(AuthError::ExpectationFailed);
    }
    let encoded = remove_basic(h);
    let bytes = match base64_decode(encoded.as_str()) {
        Some(b) => b,
        None => {
            return Err(AuthError::ExpectationFailed);
        },
    };
    let text = match utf8_string(bytes) {
        Some(t) => t,
        None => {
            return Err(AuthError::InternalServerError);
        },
    };
    let (username, password) = split_credentials(text.as_str());
    Ok(Credentials { username, password })
}

/// The verdict on the ledger's answer to whether it knows the user: refused
/// where it answered that it does not; where it could not answer, the
/// password check decides.
pub fn known_user_verdict(known: Option<bool>) -> (r: Result<(), AuthError>)
    ensures
        r is Err <==> known == Some(false),
        r is Err ==> r->Err_0 == AuthError::NotFound,
{
    match known {
        Some(false) => Err(AuthError::NotFound),
        _ => Ok(()),
    }
}

/// The verdict on the ledger's answer to whether the password is right:
/// admitted only where it answered that it is.
pub fn password_verdict(correct: Option<bool>) -> (r: Result<(), AuthError>)
    ensures
        r is Ok <==> correct == Some(true),
        r is Err ==> r->Err_0 == AuthError::NotFound,
{
    match correct {
        Some(true) => Ok(()),
        _ => Err(AuthError::NotFound),
    }
}

/// What the market does about its own ledger account at start-up.
#[derive(Clone, Copy, Debug, PartialEq, Eq, Structural)]
pub enum MarketAccountAction {
    /// The ledger does not know the account (or could not say): create it.
    Create,
    /// The ledger knows the account: check that the configured password is
    /// right.
    CheckPassword,
}

/// What the market does about its own account, given the ledger's answer to
/// whether it knows it.
pub fn market_account_action(known: Option<bool>) -> (r: MarketAccountAction)
    ensures
        r == (if known == Some(true) {
            MarketAccountAction::CheckPassword
        } else {
            MarketAccountAction::Create
        }),
{
    match known {
        Some(true) => MarketAccountAction::CheckPassword,
        _ => MarketAccountAction::Create,
    }
}

} // verus!
