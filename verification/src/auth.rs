//! Basic authorization: every route but the health check asks for the
//! application's user name and password.
use vstd::prelude::*;
use vstd::utf8::encode_utf8;
use crate::text::owned;

verus! {

/// The 64 digits of standard Base64.
pub open spec fn base64_alphabet() -> Seq<char> {
    "ABCDEFGHIJKLMNOPQRSTUVWXYZabcdefghijklmnopqrstuvwxyz0123456789+/"@
}

pub open spec fn b64(v: int) -> char {
    base64_alphabet()[v]
}

/// Standard Base64 (with `=` padding) of a byte sequence: each group of
/// three bytes becomes four digits of six bits.
pub open spec fn base64(bytes: Seq<u8>) -> Seq<char>
    decreases bytes.len(),
{
    if bytes.len() == 0 {
        Seq::empty()
    } else if bytes.len() == 1 {
        let b0 = bytes[0] as int;
        seq![b64(b0 / 4), b64((b0 % 4) * 16), '=', '=']
    } else if bytes.len() == 2 {
        let b0 = bytes[0] as int;
        let b1 = bytes[1] as int;
        seq![b64(b0 / 4), b64((b0 % 4) * 16 + b1 / 16), b64((b1 % 16) * 4), '=']
    } else {
        let b0 = bytes[0] as int;
        let b1 = bytes[1] as int;
        let b2 = bytes[2] as int;
        seq![b64(b0 / 4), b64((b0 % 4) * 16 + b1 / 16), b64((b1 % 16) * 4 + b2 / 64), b64(b2 % 64)]
            + base64(bytes.subrange(3, bytes.len() as int))
    }
}

fn push_digit(s: &mut String, v: u8)
    requires
        v < 64,
    ensures
        final(s)@ == old(s)@.push(b64(v as int)),
{
    let alphabet = "ABCDEFGHIJKLMNOPQRSTUVWXYZabcdefghijklmnopqrstuvwxyz0123456789+/";
    proof {
        reveal_strlit("ABCDEFGHIJKLMNOPQRSTUVWXYZabcdefghijklmnopqrstuvwxyz0123456789+/");
    }
    let d = alphabet.substring_char(v as usize, v as usize + 1);
    s.append(d);
    proof {
        assert(d@ =~= seq![b64(v as int)]);
        assert(final(s)@ =~= old(s)@.push(b64(v as int)));
    }
}

fn push_pad(s: &mut String)
    ensures
        final(s)@ == old(s)@.push('='),
{
    s.append("=");
    proof {
        reveal_strlit("=");
        assert(final(s)@ =~= old(s)@.push('='));
    }
}

/// The Base64 text of a byte sequence.
pub fn base64_text(bytes: &[u8]) -> (t: String)
    ensures
        t@ == base64(bytes@),
{
    let n = bytes.len();
    let mut t = String::new();
    let mut i: usize = 0;
    proof {
        assert(bytes@.subrange(0, n as int) =~= bytes@);
    }
    while i < n
        invariant
            n == bytes@.len(),
            i <= n,
            t@ + base64(bytes@.subrange(i as int, n as int)) == base64(bytes@),
        decreases n - i,
    {
        let ghost rest = bytes@.subrange(i as int, n as int);
        let ghost before = t@;
        let b0 = bytes[i];
        if n - i == 1 {
            push_digit(&mut t, b0 / 4);
            push_digit(&mut t, (b0 % 4) * 16);
            push_pad(&mut t);
            push_pad(&mut t);
            i = n;
            proof {
                assert(rest[0] == b0);
                assert(base64(bytes@.subrange(i as int, n as int)) =~= Seq::<char>::empty());
                assert(t@ =~= before + base64(rest));
            }
        } else if n - i == 2 {
            let b1 = bytes[i + 1];
            push_digit(&mut t, b0 / 4);
            push_digit(&mut t, (b0 % 4) * 16 + b1 / 16);
            push_digit(&mut t, (b1 % 16) * 4);
            push_pad(&mut t);
            i = n;
            proof {
                assert(rest[0] == b0 && rest[1] == b1);
                assert(base64(bytes@.subrange(i as int, n as int)) =~= Seq::<char>::empty());
                assert(t@ =~= before + base64(rest));
            }
        } else {
            let b1 = bytes[i + 1];
            let b2 = bytes[i + 2];
            push_digit(&mut t, b0 / 4);
            push_digit(&mut t, (b0 % 4) * 16 + b1 / 16);
            push_digit(&mut t, (b1 % 16) * 4 + b2 / 64);
            push_digit(&mut t, b2 % 64);
            i = i + 3;
            proof {
                assert(rest[0] == b0 && rest[1] == b1 && rest[2] == b2);
                assert(rest.subrange(3, rest.len() as int) =~= bytes@.subrange(i as int, n as int));
                assert(t@ + base64(bytes@.subrange(i as int, n as int)) =~= before + base64(rest));
            }
        }
    }
    proof {
        assert(t@ + base64(bytes@.subrange(i as int, n as int)) =~= t@);
    }
    t
}

/// The Base64 of the UTF-8 bytes of `user:password`, the token that Basic
/// authorization carries.
pub open spec fn credentials_token(user: Seq<char>, password: Seq<char>) -> Seq<char> {
    base64(encode_utf8(user + ":"@ + password))
}

/// The `Authorization` header value that the given credentials send:
/// `Basic `, then their token.
pub open spec fn basic_authorization(user: Seq<char>, password: Seq<char>) -> Seq<char> {
    "Basic "@ + credentials_token(user, password)
}

/// The token of the credentials.
pub fn credentials_token_text(user: &str, password: &str) -> (t: String)
    ensures
        t@ == credentials_token(user@, password@),
{
    let mut pair = owned(user);
    pair.append(":");
    pair.append(password);
    base64_text(pair.as_str().as_bytes())
}

/// The header value the credentials send.
pub fn basic_authorization_header(user: &str, password: &str) -> (h: String)
    ensures
        h@ == basic_authorization(user@, password@),
{
    let encoded = credentials_token_text(user, password);
    let mut h = owned("Basic ");
    h.append(encoded.as_str());
    h
}

/// A letter in lower case; other characters as they are.
pub open spec fn ascii_lower(c: char) -> char {
    if 'A' <= c <= 'Z' {
        (((c as u32) + 32) as u32) as char
    } else {
        c
    }
}

fn lower(c: char) -> (l: char)
    ensures
        l == ascii_lower(c),
{
    if 'A' <= c && c <= 'Z' {
        ((c as u8) + 32) as char
    } else {
        c
    }
}

/// The header carries the credentials: the scheme `Basic`, in any case,
/// one space, then the credentials' token.
pub open spec fn carries_credentials(h: Seq<char>, user: Seq<char>, password: Seq<char>) -> bool {
    &&& h.len() >= 6
    &&& ascii_lower(h[0]) == 'b'
    &&& ascii_lower(h[1]) == 'a'
    &&& ascii_lower(h[2]) == 's'
    &&& ascii_lower(h[3]) == 'i'
    &&& ascii_lower(h[4]) == 'c'
    &&& h[5] == ' '
    &&& h.subrange(6, h.len() as int) == credentials_token(user, password)
}

/// A request may go through when it is the health check, or when it
/// carries the application's credentials.
pub open spec fn may_pass(
    path: Seq<char>,
    authorization: Option<Seq<char>>,
    user: Seq<char>,
    password: Seq<char>,
) -> bool {
    path == "/health"@ || (authorization is Some && carries_credentials(
        authorization->0,
        user,
        password,
    ))
}

/// Whether a request may go through, given its path and its
/// `Authorization` header (when present and readable as text).
pub fn authorize(path: &str, authorization: Option<&str>, user: &str, password: &str) -> (b: bool)
    ensures
        b == may_pass(
            path@,
            match authorization {
                Some(a) => Some(a@),
                None => None,
            },
            user@,
            password@,
        ),
{
    let p = owned(path);
    let health = owned("/health");
    if p == health {
        return true;
    }
    match authorization {
        Some(a) => {
            let n = a.unicode_len();
            if n < 6 {
                return false;
            }
            if !(lower(a.get_char(0)) == 'b' && lower(a.get_char(1)) == 'a' && lower(a.get_char(2))
                == 's' && lower(a.get_char(3)) == 'i' && lower(a.get_char(4)) == 'c' && a.get_char(5)
                == ' ') {
                return false;
            }
            let given = owned(a.substring_char(6, n));
            let expected = credentials_token_text(user, password);
            given == expected
        },
        None => false,
    }
}

} // verus!
