//! Percent-encoding of form fields, through the `urlencoding` crate.

use vstd::prelude::*;
use vstd::string::*;

verus! {

/// The bytes that `urlencoding::encode` leaves as they are: ASCII letters and digits and
/// `-`, `.`, `_`, `~`.
pub open spec fn is_unreserved_byte(b: u8) -> bool {
    ||| 0x30 <= b <= 0x39
    ||| 0x41 <= b <= 0x5a
    ||| 0x61 <= b <= 0x7a
    ||| b == 0x2d
    ||| b == 0x2e
    ||| b == 0x5f
    ||| b == 0x7e
}

/// The upper-case hexadecimal digit of a value below sixteen.
pub open spec fn hex_upper(d: u8) -> char {
    if d < 10 {
        (48 + d) as char
    } else {
        (55 + d) as char
    }
}

/// How `urlencoding::encode` writes one byte: unreserved bytes as themselves, every other
/// byte as `%` and two upper-case hexadecimal digits.
pub open spec fn encode_byte(b: u8) -> Seq<char> {
    if is_unreserved_byte(b) {
        seq![b as char]
    } else {
        seq!['%', hex_upper(b / 16), hex_upper(b % 16)]
    }
}

/// The percent-encoding of a byte string.
pub open spec fn percent_encoded(bytes: Seq<u8>) -> Seq<char>
    decreases bytes.len(),
{
    if bytes.len() == 0 {
        Seq::empty()
    } else {
        percent_encoded(bytes.drop_last()) + encode_byte(bytes.last())
    }
}

/// `urlencoding::encode`: percent-encodes each byte of the UTF-8 form of `data` except the
/// unreserved ones, with upper-case hexadecimal digits.
#[verifier::external_body]
fn url_encode(data: &str) -> (r: String)
    ensures
        r@ == percent_encoded(data.spec_bytes()),
{
    urlencoding::encode(data).into_owned()
}

/// The body of the tracker's login form: `id=` and the encoded user name, then `&pass=` and
/// the encoded password.
pub open spec fn login_form_spec(username: Seq<u8>, password: Seq<u8>) -> Seq<char> {
    "id="@ + percent_encoded(username) + "&pass="@ + percent_encoded(password)
}

/// Builds the body of the tracker's login form.
pub fn login_form(username: &str, password: &str) -> (r: String)
    ensures
        r@ == login_form_spec(username.spec_bytes(), password.spec_bytes()),
        r@ == "id="@ + percent_encoded(username.spec_bytes()) + "&pass="@ + percent_encoded(
            password.spec_bytes(),
        ),
{
    let mut r = String::from_str("id=");
    let u = url_encode(username);
    r.append(u.as_str());
    r.append("&pass=");
    let p = url_encode(password);
    r.append(p.as_str());
    r
}

/// A percent-encoded field holds neither `&` nor `=`: whatever the user name and password
/// are, the login form has exactly its two fields.
pub proof fn encoded_field_has_no_separators(bytes: Seq<u8>)
    ensures
        forall|i: int|
            0 <= i < percent_encoded(bytes).len() ==> #[trigger] percent_encoded(bytes)[i] != '&'
                && percent_encoded(bytes)[i] != '=',
    decreases bytes.len(),
{
    if bytes.len() > 0 {
        let b = bytes.last();
        encoded_field_has_no_separators(bytes.drop_last());
        let head = percent_encoded(bytes.drop_last());
        let tail = encode_byte(b);
        assert(hex_upper(b / 16) != '&' && hex_upper(b / 16) != '=');
        assert(hex_upper(b % 16) != '&' && hex_upper(b % 16) != '=');
        assert(is_unreserved_byte(b) ==> (b as char) != '&' && (b as char) != '=');
        assert forall|i: int| 0 <= i < percent_encoded(bytes).len() implies #[trigger] percent_encoded(
            bytes,
        )[i] != '&' && percent_encoded(bytes)[i] != '=' by {
            assert(percent_encoded(bytes) == head + tail);
            if i >= head.len() {
                assert(percent_encoded(bytes)[i] == tail[i - head.len()]);
            } else {
                assert(percent_encoded(bytes)[i] == head[i]);
            }
        }
    }
}

/// The login form carries each field percent-encoded, whatever it holds: the user name
/// after `id=` and the password after `&pass=`.
pub proof fn login_form_encodes_both_fields(username: Seq<u8>, password: Seq<u8>)
    ensures
        login_form_spec(username, password) == "id="@ + percent_encoded(username) + "&pass="@
            + percent_encoded(password),
{
}

/// Percent-encoding writes every byte other than ASCII letters, digits and `-._~` as `%`
/// and two hexadecimal digits, so such a byte (a `+`, a space, `&`, `=`, any byte of a
/// non-ASCII character) never reaches the form as itself; and it works byte by byte.
pub proof fn reserved_bytes_are_escaped(bytes: Seq<u8>, b: u8)
    requires
        !(0x30 <= b <= 0x39 || 0x41 <= b <= 0x5a || 0x61 <= b <= 0x7a || b == 0x2d || b == 0x2e
            || b == 0x5f || b == 0x7e),
    ensures
        percent_encoded(bytes.push(b)) == percent_encoded(bytes) + seq!['%', hex_upper(b / 16), hex_upper(b % 16)],
        percent_encoded(bytes.push(b)).len() == percent_encoded(bytes).len() + 3,
        percent_encoded(bytes.push(b)).last() != b as char,
{
    assert(bytes.push(b).drop_last() =~= bytes);
    assert(hex_upper(b % 16) != b as char) by {
        assert((b % 16) < 16);
    }
}

} // verus!
