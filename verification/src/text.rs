//! Wire text: JSON string escaping and the exact request bodies and header
//! values that the upstream provider expects.

use vstd::prelude::*;

verus! {

/// The hexadecimal digit character for a value below sixteen.
pub open spec fn hex_digit(d: int) -> char {
    "0123456789abcdef"@[d]
}

/// How one character is written inside a JSON string literal: quote,
/// backslash and control characters are escaped, everything else stands
/// unchanged.
pub open spec fn spec_escape_char(c: char) -> Seq<char> {
    if c == '"' {
        seq!['\\', '"']
    } else if c == '\\' {
        seq!['\\', '\\']
    } else if c == '\n' {
        seq!['\\', 'n']
    } else if c == '\r' {
        seq!['\\', 'r']
    } else if c == '\t' {
        seq!['\\', 't']
    } else if (c as u32) < 32 {
        seq!['\\', 'u', '0', '0', hex_digit(c as u32 as int / 16), hex_digit(c as u32 as int % 16)]
    } else {
        seq![c]
    }
}

/// A whole string as it is written inside a JSON string literal.
pub open spec fn spec_escape(s: Seq<char>) -> Seq<char>
    decreases s.len(),
{
    if s.len() == 0 {
        Seq::empty()
    } else {
        spec_escape_char(s[0]) + spec_escape(s.skip(1))
    }
}

pub proof fn lemma_escape_push(s: Seq<char>, c: char)
    ensures
        spec_escape(s.push(c)) == spec_escape(s) + spec_escape_char(c),
    decreases s.len(),
{
    if s.len() == 0 {
        reveal_with_fuel(spec_escape, 2);
        assert(s.push(c)[0] == c);
        assert(s.push(c).skip(1) =~= Seq::<char>::empty());
        assert(spec_escape(s.push(c)) =~= spec_escape(s) + spec_escape_char(c));
    } else {
        assert(s.push(c)[0] == s[0]);
        assert(s.push(c).skip(1) =~= s.skip(1).push(c));
        lemma_escape_push(s.skip(1), c);
        assert(spec_escape(s.push(c)) =~= spec_escape(s) + spec_escape_char(c));
    }
}

/// Escapes a string for inclusion inside a JSON string literal.
pub fn escape_json(s: &str) -> (out: String)
    ensures
        out@ == spec_escape(s@),
{
    let n = s.unicode_len();
    let mut out = String::new();
    let mut i: usize = 0;
    while i < n
        invariant
            n == s@.len(),
            i <= n,
            out@ == spec_escape(s@.take(i as int)),
        decreases n - i,
    {
        let c = s.get_char(i);
        proof {
            lemma_escape_push(s@.take(i as int), c);
            assert(s@.take(i as int).push(c) =~= s@.take(i as int + 1));
        }
        if c == '"' {
            out.append("\\\"");
            proof {
                reveal_strlit("\\\"");
                assert(out@ =~= spec_escape(s@.take(i as int + 1)));
            }
        } else if c == '\\' {
            out.append("\\\\");
            proof {
                reveal_strlit("\\\\");
                assert(out@ =~= spec_escape(s@.take(i as int + 1)));
            }
        } else if c == '\n' {
            out.append("\\n");
            proof {
                reveal_strlit("\\n");
                assert(out@ =~= spec_escape(s@.take(i as int + 1)));
            }
        } else if c == '\r' {
            out.append("\\r");
            proof {
                reveal_strlit("\\r");
                assert(out@ =~= spec_escape(s@.take(i as int + 1)));
            }
        } else if c == '\t' {
            out.append("\\t");
            proof {
                reveal_strlit("\\t");
                assert(out@ =~= spec_escape(s@.take(i as int + 1)));
            }
        } else if (c as u32) < 32 {
            out.append("\\u00");
            let hx = "0123456789abcdef";
            let d1 = ((c as u32) / 16) as usize;
            let d2 = ((c as u32) % 16) as usize;
            proof {
                reveal_strlit("0123456789abcdef");
            }
            let h1 = hx.substring_char(d1, d1 + 1);
            out.append(h1);
            let h2 = hx.substring_char(d2, d2 + 1);
            out.append(h2);
            proof {
                reveal_strlit("\\u00");
                assert(h1@ =~= seq![hex_digit(c as u32 as int / 16)]);
                assert(h2@ =~= seq![hex_digit(c as u32 as int % 16)]);
                assert(out@ =~= spec_escape(s@.take(i as int + 1)));
            }
        } else {
            let piece = s.substring_char(i, i + 1);
            out.append(piece);
            proof {
                assert(piece@ =~= seq![c]);
                assert(out@ =~= spec_escape(s@.take(i as int + 1)));
            }
        }
        i += 1;
    }
    proof {
        assert(s@.take(n as int) =~= s@);
    }
    out
}

/// The authorization header value for a bearer credential.
pub open spec fn spec_bearer(token: Seq<char>) -> Seq<char> {
    "Bearer "@ + token
}

pub fn bearer_value(token: &str) -> (r: String)
    ensures
        r@ == spec_bearer(token@),
{
    let mut out = String::from_str("Bearer ");
    out.append(token);
    out
}

/// The JSON body of a folder-listing request: a single-level listing with
/// deleted, media, mounted-folder and non-downloadable entries excluded.
pub open spec fn spec_list_body(path: Seq<char>) -> Seq<char> {
    "{\"include_deleted\":false,\"include_has_explicit_shared_members\":false,\"include_media_info\":false,\"include_mounted_folders\":false,\"include_non_downloadable_files\":false,\"path\":\""@
        + spec_escape(path) + "\",\"recursive\":false}"@
}

pub fn list_folder_body(path: &str) -> (r: String)
    ensures
        r@ == spec_list_body(path@),
{
    let mut out = String::from_str(
        "{\"include_deleted\":false,\"include_has_explicit_shared_members\":false,\"include_media_info\":false,\"include_mounted_folders\":false,\"include_non_downloadable_files\":false,\"path\":\"",
    );
    let escaped = escape_json(path);
    out.append(escaped.as_str());
    out.append("\",\"recursive\":false}");
    out
}

/// The JSON body of a listing-continuation request.
pub open spec fn spec_cursor_body(cursor: Seq<char>) -> Seq<char> {
    "{\"cursor\":\""@ + spec_escape(cursor) + "\"}"@
}

pub fn list_continue_body(cursor: &str) -> (r: String)
    ensures
        r@ == spec_cursor_body(cursor@),
{
    let mut out = String::from_str("{\"cursor\":\"");
    let escaped = escape_json(cursor);
    out.append(escaped.as_str());
    out.append("\"}");
    out
}

/// The header value that carries the target path of a download request.
pub open spec fn spec_api_arg(path: Seq<char>) -> Seq<char> {
    "{\"path\":\""@ + spec_escape(path) + "\"}"@
}

pub fn api_arg_value(path: &str) -> (r: String)
    ensures
        r@ == spec_api_arg(path@),
{
    let mut out = String::from_str("{\"path\":\"");
    let escaped = escape_json(path);
    out.append(escaped.as_str());
    out.append("\"}");
    out
}

/// The header value that routes a request into a tenant namespace.
pub open spec fn spec_path_root(namespace_id: Seq<char>) -> Seq<char> {
    "{\".tag\":\"namespace_id\",\"namespace_id\":\""@ + spec_escape(namespace_id) + "\"}"@
}

pub fn path_root_value(namespace_id: &str) -> (r: String)
    ensures
        r@ == spec_path_root(namespace_id@),
{
    let mut out = String::from_str("{\".tag\":\"namespace_id\",\"namespace_id\":\"");
    let escaped = escape_json(namespace_id);
    out.append(escaped.as_str());
    out.append("\"}");
    out
}

/// The disposition header value that names a downloaded file as an
/// attachment.
pub open spec fn spec_disposition(name: Seq<char>) -> Seq<char> {
    "attachment; filename=\""@ + name + "\""@
}

pub fn disposition_value(name: &str) -> (r: String)
    ensures
        r@ == spec_disposition(name@),
{
    let mut out = String::from_str("attachment; filename=\"");
    out.append(name);
    out.append("\"");
    out
}

/// The form-encoded body of a token-exchange request.
pub open spec fn spec_refresh_body(
    refresh_token: Seq<char>,
    client_id: Seq<char>,
    client_secret: Seq<char>,
) -> Seq<char> {
    "grant_type=refresh_token&refresh_token="@ + refresh_token + "&client_id="@ + client_id
        + "&client_secret="@ + client_secret
}

pub fn refresh_request_body(refresh_token: &str, client_id: &str, client_secret: &str) -> (r:
    String)
    ensures
        r@ == spec_refresh_body(refresh_token@, client_id@, client_secret@),
{
    let mut out = String::from_str("grant_type=refresh_token&refresh_token=");
    out.append(refresh_token);
    out.append("&client_id=");
    out.append(client_id);
    out.append("&client_secret=");
    out.append(client_secret);
    out
}

} // verus!
