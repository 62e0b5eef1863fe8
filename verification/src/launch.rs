use vstd::prelude::*;
use crate::text::str_equal;

verus! {

/// The text `urlencoding::decode` gives back for a percent-encoded text:
/// every `%XX` with two hexadecimal digits becomes that byte, the bytes are
/// read as UTF-8, and `None` stands for bytes that are not UTF-8.
pub uninterp spec fn percent_decoded(s: Seq<char>) -> Option<Seq<char>>;

/// `urlencoding::decode`. Its source returns the text unchanged when it
/// holds no `%`; what it does with escapes is left to `percent_decoded`.
#[verifier::external_body]
fn percent_decode(s: &str) -> (r: Option<String>)
    ensures
        r is None <==> percent_decoded(s@) is None,
        r matches Some(d) ==> percent_decoded(s@) == Some(d@),
        !s@.contains('%') ==> r is Some && r.unwrap()@ == s@,
{
    match urlencoding::decode(s) {
        Ok(d) => Some(d.into_owned()),
        Err(_) => None,
    }
}

/// The rest of a `file://` URI, `None` for any other text.
pub open spec fn file_uri_rest(s: Seq<char>) -> Option<Seq<char>> {
    if s.len() >= 7 && s.subrange(0, 7) == "file://"@ {
        Some(s.subrange(7, s.len() as int))
    } else {
        None
    }
}

/// The path of a decoded `file://` URI: its decoded text when decoding
/// succeeded, the raw text otherwise.
pub fn decoded_or_raw(decoded: Option<String>, raw: &str) -> (r: String)
    ensures
        match decoded {
            Some(d) => r@ == d@,
            None => r@ == raw@,
        },
{
    match decoded {
        Some(d) => d,
        None => raw.to_owned(),
    }
}

/// The path named by the first command-line argument: a `file://` URI
/// (as a file manager passes it) is percent-decoded, falling back to its
/// raw text when the decoded bytes are not UTF-8; any other argument is
/// taken as it is. Making it absolute and checking that it is a directory
/// is left to the caller, which reads the file system.
pub fn initial_path_arg(arg: &str) -> (r: String)
    ensures
        match file_uri_rest(arg@) {
            Some(rest) => match percent_decoded(rest) {
                Some(d) => r@ == d,
                None => r@ == rest,
            },
            None => r@ == arg@,
        },
{
    let n = arg.unicode_len();
    if n >= 7 {
        let head = arg.substring_char(0, 7);
        if str_equal(head, "file://") {
            let rest = arg.substring_char(7, n);
            let decoded = percent_decode(rest);
            return decoded_or_raw(decoded, rest);
        }
    }
    arg.to_owned()
}

/// A `file://` URI gives the text after its scheme, and only a text that
/// starts with `file://` is one.
pub proof fn law_file_uri(rest: Seq<char>, s: Seq<char>)
    ensures
        file_uri_rest("file://"@ + rest) == Some(rest),
        (file_uri_rest(s) matches Some(r) ==> s == "file://"@ + r),
        s.len() < 7 ==> file_uri_rest(s) is None,
{
    reveal_strlit("file://");
    assert(("file://"@ + rest).subrange(0, 7) =~= "file://"@);
    assert(("file://"@ + rest).subrange(7, ("file://"@ + rest).len() as int) =~= rest);
    if s.len() >= 7 && s.subrange(0, 7) == "file://"@ {
        assert(s =~= s.subrange(0, 7) + s.subrange(7, s.len() as int));
    }
}

} // verus!
