use vstd::prelude::*;
use vstd::string::*;
use vstd::utf8::*;

verus! {

/// The value of an ASCII hexadecimal digit, if the byte is one.
pub open spec fn hex_digit_value(b: u8) -> Option<u8> {
    if 0x30 <= b <= 0x39 {
        Some((b - 0x30) as u8)
    } else if 0x41 <= b <= 0x46 {
        Some((b - 0x41 + 10) as u8)
    } else if 0x61 <= b <= 0x66 {
        Some((b - 0x61 + 10) as u8)
    } else {
        None
    }
}

/// Percent-decoding of bytes: every `%` followed by two hexadecimal digits
/// becomes the byte they spell; every other byte stays as it is.
pub open spec fn percent_decode_bytes(b: Seq<u8>) -> Seq<u8>
    decreases b.len(),
{
    if b.len() == 0 {
        seq![]
    } else if b[0] == 0x25 && b.len() >= 3 && hex_digit_value(b[1]) is Some && hex_digit_value(
        b[2],
    ) is Some {
        seq![(hex_digit_value(b[1])->0 * 16 + hex_digit_value(b[2])->0) as u8]
            + percent_decode_bytes(b.subrange(3, b.len() as int))
    } else {
        seq![b[0]] + percent_decode_bytes(b.drop_first())
    }
}

/// Percent-decodes the UTF-8 bytes of `s` and reads the result as UTF-8.
///
/// Calls `percent_encoding::percent_decode_str(s).decode_utf8()`; the
/// contract states that crate's documented behaviour: each `%` followed by two
/// hexadecimal digits is replaced by the byte they spell, and the result is
/// `Ok` exactly when the decoded bytes are valid UTF-8, holding the characters
/// they encode.
#[verifier::external_body]
fn percent_decode_utf8(s: &str) -> (r: Option<String>)
    ensures
        r is Some <==> valid_utf8(percent_decode_bytes(s.spec_bytes())),
        r matches Some(d) ==> d@ == decode_utf8(percent_decode_bytes(s.spec_bytes())),
{
    match percent_encoding::percent_decode_str(s).decode_utf8() {
        Ok(decoded) => Some(decoded.into_owned()),
        Err(_) => None,
    }
}

/// The scheme under which a web view serves local files.
pub open spec fn local_file_scheme() -> Seq<char> {
    "deskgap"@
}

/// What every local-file URL starts with.
pub open spec fn local_file_url_prefix() -> Seq<char> {
    "deskgap://local-file/"@
}

/// `s` without the slashes it starts with.
pub open spec fn strip_leading_slashes(s: Seq<char>) -> Seq<char>
    decreases s.len(),
{
    if s.len() > 0 && s[0] == '/' {
        strip_leading_slashes(s.drop_first())
    } else {
        s
    }
}

/// `s` up to its first `?`, or all of it when it holds none.
pub open spec fn before_query(s: Seq<char>) -> Seq<char>
    decreases s.len(),
{
    if s.len() == 0 {
        s
    } else if s[0] == '?' {
        seq![]
    } else {
        seq![s[0]] + before_query(s.drop_first())
    }
}

/// The still-encoded path of a local-file URL: what follows the prefix,
/// without leading slashes and without the query; nothing for a URL without
/// the prefix.
pub open spec fn local_file_url_path_spec(url: Seq<char>) -> Option<Seq<char>> {
    let prefix = local_file_url_prefix();
    if url.len() >= prefix.len() && url.take(prefix.len() as int) == prefix {
        Some(before_query(strip_leading_slashes(url.skip(prefix.len() as int))))
    } else {
        None
    }
}

/// Whether `s` holds two dots in a row.
pub open spec fn has_parent_ref(s: Seq<char>) -> bool {
    exists|i: int| 0 <= i < s.len() - 1 && #[trigger] s[i] == '.' && s[i + 1] == '.'
}

/// The decoded path a local-file URL asks for, relative to the root
/// directory: nothing for a URL without the prefix, for a path whose
/// percent-decoding is not UTF-8, and for a path holding `..`.
pub open spec fn local_file_relative_path_spec(url: Seq<char>) -> Option<Seq<char>> {
    match local_file_url_path_spec(url) {
        None => None,
        Some(p) => {
            let bytes = percent_decode_bytes(encode_utf8(p));
            if !valid_utf8(bytes) {
                None
            } else if has_parent_ref(decode_utf8(bytes)) {
                None
            } else {
                Some(decode_utf8(bytes))
            }
        },
    }
}

/// Extracts the still-encoded path of a local-file URL.
pub fn local_file_url_path(url: &str) -> (r: Option<&str>)
    ensures
        match local_file_url_path_spec(url@) {
            None => r is None,
            Some(p) => r matches Some(s) && s@ == p,
        },
{
    let prefix = "deskgap://local-file/";
    proof {
        reveal_strlit("deskgap://local-file/");
    }
    let plen = prefix.unicode_len();
    let n = url.unicode_len();
    if n < plen {
        return None;
    }
    let mut i: usize = 0;
    while i < plen
        invariant
            i <= plen,
            plen == prefix@.len(),
            prefix@ == local_file_url_prefix(),
            n == url@.len(),
            plen <= n,
            forall|k: int| 0 <= k < i ==> url@[k] == prefix@[k],
        decreases plen - i,
    {
        if url.get_char(i) != prefix.get_char(i) {
            assert(url@.take(plen as int)[i as int] != prefix@[i as int]);
            return None;
        }
        i += 1;
    }
    assert(url@.take(plen as int) =~= prefix@);
    let mut start: usize = plen;
    assert(url@.skip(plen as int) == url@.skip(start as int));
    while start < n && url.get_char(start) == '/'
        invariant
            plen <= start <= n,
            n == url@.len(),
            strip_leading_slashes(url@.skip(plen as int)) == strip_leading_slashes(
                url@.skip(start as int),
            ),
        decreases n - start,
    {
        assert(url@.skip(start as int).drop_first() =~= url@.skip(start + 1));
        start += 1;
    }
    assert(strip_leading_slashes(url@.skip(start as int)) == url@.skip(start as int));
    let mut end: usize = start;
    assert(url@.subrange(start as int, end as int) =~= Seq::<char>::empty());
    assert(url@.skip(start as int) =~= url@.subrange(start as int, end as int) + url@.skip(
        end as int,
    ));
    while end < n && url.get_char(end) != '?'
        invariant
            start <= end <= n,
            n == url@.len(),
            before_query(url@.skip(start as int)) == url@.subrange(start as int, end as int)
                + before_query(url@.skip(end as int)),
        decreases n - end,
    {
        let ghost rest = url@.skip(end as int);
        assert(rest.drop_first() =~= url@.skip(end + 1));
        assert(before_query(rest) == seq![rest[0]] + before_query(url@.skip(end + 1)));
        assert(url@.subrange(start as int, end + 1) =~= url@.subrange(start as int, end as int)
            + seq![rest[0]]);
        end += 1;
    }
    assert(before_query(url@.skip(end as int)) =~= Seq::<char>::empty());
    assert(before_query(url@.skip(start as int)) =~= url@.subrange(start as int, end as int));
    Some(url.substring_char(start, end))
}

/// Whether `s` holds two dots in a row.
pub fn contains_parent_ref(s: &str) -> (r: bool)
    ensures
        r == has_parent_ref(s@),
{
    let n = s.unicode_len();
    if n < 2 {
        return false;
    }
    let mut i: usize = 0;
    while i + 1 < n
        invariant
            n == s@.len(),
            n >= 2,
            i + 1 <= n,
            forall|k: int| 0 <= k < i ==> !(#[trigger] s@[k] == '.' && s@[k + 1] == '.'),
        decreases n - i,
    {
        if s.get_char(i) == '.' && s.get_char(i + 1) == '.' {
            return true;
        }
        i += 1;
    }
    assert(!has_parent_ref(s@)) by {
        if has_parent_ref(s@) {
            let k = choose|k: int| 0 <= k < s@.len() - 1 && #[trigger] s@[k] == '.' && s@[k + 1]
                == '.';
            assert(k < i);
        }
    }
    false
}

/// The decoded path a local-file URL asks for, relative to the root directory.
pub fn local_file_relative_path(url: &str) -> (r: Option<String>)
    ensures
        match local_file_relative_path_spec(url@) {
            None => r is None,
            Some(p) => r matches Some(s) && s@ == p,
        },
{
    let encoded = match local_file_url_path(url) {
        None => return None,
        Some(p) => p,
    };
    let decoded = match percent_decode_utf8(encoded) {
        None => return None,
        Some(d) => d,
    };
    if contains_parent_ref(decoded.as_str()) {
        None
    } else {
        Some(decoded)
    }
}

/// What a request for `url` yields, given the root directory: nothing
/// without a root or without a relative path for the URL; otherwise the root
/// and the decoded relative path.
pub open spec fn local_file_request_matches(
    root: Option<Seq<char>>,
    url: Seq<char>,
    r: Option<LocalFileRequest>,
) -> bool {
    match (root, local_file_relative_path_spec(url)) {
        (Some(root), Some(p)) => r matches Some(req) && req.root_dir@ == root && req.relative_path@
            == p,
        _ => r is None,
    }
}

/// A local file a web view was asked for: the root directory and the decoded
/// path, which holds no `..`. The caller joins the two and reads the file; a
/// relative path that is itself absolute (such as one decoded from `%2F...`)
/// replaces the root when joined.
#[derive(Debug)]
pub struct LocalFileRequest {
    pub root_dir: String,
    pub relative_path: String,
}

/// Serves `deskgap://local-file/...` requests from a root directory.
#[derive(Debug)]
pub struct LocalFileHandler {
    root_dir: Option<String>,
}

impl LocalFileHandler {
    pub closed spec fn root(&self) -> Option<Seq<char>> {
        match self.root_dir {
            None => None,
            Some(r) => Some(r@),
        }
    }

    /// A handler serving from `root_dir`, or serving nothing.
    pub fn new(root_dir: Option<String>) -> (r: Self)
        ensures
            r.root() == (match root_dir {
                None => None,
                Some(d) => Some(d@),
            }),
    {
        LocalFileHandler { root_dir }
    }

    pub fn set_root_dir(&mut self, root_dir: Option<String>)
        ensures
            final(self).root() == (match root_dir {
                None => None,
                Some(d) => Some(d@),
            }),
    {
        self.root_dir = root_dir;
    }

    /// The file a request URL asks for: nothing without a root directory,
    /// otherwise the root and the decoded relative path of the URL.
    pub fn resolve(&self, url: &str) -> (r: Option<LocalFileRequest>)
        ensures
            local_file_request_matches(self.root(), url@, r),
    {
        let root = match &self.root_dir {
            None => return None,
            Some(root) => root.clone(),
        };
        match local_file_relative_path(url) {
            None => None,
            Some(relative_path) => Some(LocalFileRequest { root_dir: root, relative_path }),
        }
    }
}

} // verus!

verus! {

/// The error of loading a URL that the platform could not parse.
#[derive(Clone, Copy, Debug, PartialEq, Eq, Structural)]
pub struct WebViewLoadURLError;

impl WebViewLoadURLError {
    /// The text that describes the error.
    pub fn message(&self) -> (r: String)
        ensures
            r@ == "Invalid format of URL"@,
    {
        "Invalid format of URL".to_owned()
    }
}

/// The content type local files are served with: always `hello`, whatever
/// the file's extension.
pub fn local_file_content_type() -> (r: &'static str)
    ensures
        r@ == "hello"@,
{
    "hello"
}

/// The names under which page scripts post messages to the native side.
pub fn script_message_handler_names() -> (r: Vec<String>)
    ensures
        r@.len() == 2,
        r@[0]@ == "stringMessage"@,
        r@[1]@ == "windowDrag"@,
{
    let mut names = Vec::new();
    names.push("stringMessage".to_owned());
    names.push("windowDrag".to_owned());
    names
}

/// A web view: the schemes it handles itself, whether developer tools are
/// on, and the handler that serves local files.
#[derive(Debug)]
pub struct WebView {
    local_file_handler: LocalFileHandler,
    devtools_enabled: bool,
    custom_schemes: Vec<String>,
}

impl WebView {
    pub closed spec fn root(&self) -> Option<Seq<char>> {
        self.local_file_handler.root()
    }

    pub closed spec fn devtools(&self) -> bool {
        self.devtools_enabled
    }

    pub closed spec fn schemes(&self) -> Seq<String> {
        self.custom_schemes@
    }

    /// A web view serving local files from the empty root (the working
    /// directory), handling the local-file scheme, with developer tools on.
    pub fn new() -> (r: Self)
        ensures
            r.root() == Some(Seq::<char>::empty()),
            r.devtools(),
            r.schemes().len() == 1,
            r.schemes()[0]@ == local_file_scheme(),
    {
        let mut custom_schemes = Vec::new();
        custom_schemes.push("deskgap".to_owned());
        let root = String::new();
        let local_file_handler = LocalFileHandler::new(Some(root));
        WebView { local_file_handler, devtools_enabled: true, custom_schemes }
    }

    /// The schemes the web view handles itself.
    pub fn custom_schemes(&self) -> (r: &Vec<String>)
        ensures
            r@ == self.schemes(),
    {
        &self.custom_schemes
    }

    pub fn devtools_enabled(&self) -> (r: bool)
        ensures
            r == self.devtools(),
    {
        self.devtools_enabled
    }

    /// Sets the directory local files are served from; none serves nothing.
    pub fn set_root_dir(&mut self, root_dir: Option<String>)
        ensures
            final(self).root() == (match root_dir {
                None => None,
                Some(d) => Some(d@),
            }),
            final(self).devtools() == old(self).devtools(),
            final(self).schemes() == old(self).schemes(),
    {
        self.local_file_handler.set_root_dir(root_dir)
    }

    /// The local file a request to one of the web view's schemes asks for.
    pub fn local_file_request(&self, url: &str) -> (r: Option<LocalFileRequest>)
        ensures
            local_file_request_matches(self.root(), url@, r),
    {
        self.local_file_handler.resolve(url)
    }

    /// The outcome of loading a URL, given whether the platform could parse it.
    pub fn load_url_outcome(parsed: bool) -> (r: Result<(), WebViewLoadURLError>)
        ensures
            r is Ok <==> parsed,
    {
        if parsed {
            Ok(())
        } else {
            Err(WebViewLoadURLError)
        }
    }

    /// Loading a file by path is not supported yet: nothing happens.
    pub fn load_file(&self, path: &str) {
    }
}

} // verus!

verus! {

/// The relative path a local-file request yields holds no `..`.
pub proof fn lemma_relative_path_has_no_parent_ref(url: Seq<char>)
    ensures
        local_file_relative_path_spec(url) matches Some(p) ==> !has_parent_ref(p),
{
}

/// Only local-file URLs ask for a file: a URL that does not start with the
/// local-file prefix yields nothing.
pub proof fn lemma_only_local_file_urls(url: Seq<char>)
    requires
        !(url.len() >= local_file_url_prefix().len() && url.take(
            local_file_url_prefix().len() as int,
        ) == local_file_url_prefix()),
    ensures
        local_file_relative_path_spec(url) is None,
{
}

proof fn lemma_strip_append(a: Seq<char>, b: Seq<char>)
    requires
        b.len() == 0 || b[0] != '/',
    ensures
        strip_leading_slashes(a + b) == strip_leading_slashes(a) + b,
        !a.contains('?') ==> !strip_leading_slashes(a).contains('?'),
    decreases a.len(),
{
    if a.len() == 0 {
        assert(a + b =~= b);
        assert(Seq::<char>::empty() + b =~= b);
    } else {
        assert((a + b).drop_first() =~= a.drop_first() + b);
        lemma_strip_append(a.drop_first(), b);
        if !a.contains('?') {
            assert(!a.drop_first().contains('?')) by {
                if a.drop_first().contains('?') {
                    let k = choose|k: int| 0 <= k < a.drop_first().len() && a.drop_first()[k] == '?';
                    assert(a[k + 1] == '?');
                }
            }
        }
    }
}

proof fn lemma_before_query_append(x: Seq<char>, q: Seq<char>)
    requires
        !x.contains('?'),
    ensures
        before_query(x + seq!['?'] + q) == x,
        before_query(x) == x,
    decreases x.len(),
{
    if x.len() == 0 {
        assert(x + seq!['?'] + q =~= seq!['?'] + q);
    } else {
        assert(x[0] != '?');
        assert((x + seq!['?'] + q).drop_first() =~= x.drop_first() + seq!['?'] + q);
        assert(!x.drop_first().contains('?')) by {
            if x.drop_first().contains('?') {
                let k = choose|k: int| 0 <= k < x.drop_first().len() && x.drop_first()[k] == '?';
                assert(x[k + 1] == '?');
            }
        }
        lemma_before_query_append(x.drop_first(), q);
        assert(seq![x[0]] + x.drop_first() =~= x);
    }
}

/// The query of a local-file URL does not change the file it asks for:
/// appending `?` and a query to a URL that holds no `?` gives the same result.
pub proof fn lemma_query_ignored(url: Seq<char>, query: Seq<char>)
    requires
        !url.contains('?'),
    ensures
        local_file_relative_path_spec(url + seq!['?'] + query) == local_file_relative_path_spec(url),
{
    reveal_strlit("deskgap://local-file/");
    let prefix = local_file_url_prefix();
    let plen = prefix.len() as int;
    let ext = url + seq!['?'] + query;
    if url.len() >= plen {
        assert(ext.take(plen) =~= url.take(plen));
        if url.take(plen) == prefix {
            let a = url.skip(plen);
            let b = seq!['?'] + query;
            assert(ext.skip(plen) =~= a + b);
            assert(!a.contains('?')) by {
                if a.contains('?') {
                    let k = choose|k: int| 0 <= k < a.len() && a[k] == '?';
                    assert(url[k + plen] == '?');
                }
            }
            lemma_strip_append(a, b);
            let s = strip_leading_slashes(a);
            assert(s + b =~= s + seq!['?'] + query);
            lemma_before_query_append(s, query);
        }
    } else {
        if ext.len() >= plen {
            assert(ext[url.len() as int] == '?');
            if ext.take(plen) == prefix {
                assert(prefix[url.len() as int] == '?');
                assert(false);
            }
        }
    }
}

/// Slashes right after the local-file prefix do not change the file a URL
/// asks for.
pub proof fn lemma_extra_slash_ignored(rest: Seq<char>)
    ensures
        local_file_relative_path_spec(local_file_url_prefix() + seq!['/'] + rest)
            == local_file_relative_path_spec(local_file_url_prefix() + rest),
{
    let prefix = local_file_url_prefix();
    let plen = prefix.len() as int;
    let with_slash = prefix + seq!['/'] + rest;
    let without = prefix + rest;
    assert(with_slash.take(plen) =~= prefix);
    assert(without.take(plen) =~= prefix);
    assert(with_slash.skip(plen) =~= seq!['/'] + rest);
    assert(without.skip(plen) =~= rest);
    assert((seq!['/'] + rest).drop_first() =~= rest);
}

} // verus!

verus! {

/// What the platform web view reports: a new document title, a request to
/// one of its custom schemes (by URL), or a message posted by a page script.
#[derive(Debug)]
pub enum WebViewEvent {
    DocumentTitleChanged(String),
    CustomSchemeRequest(String),
    ScriptMessage(String),
}

impl WebView {
    /// Handles an event of the platform web view: a custom-scheme request
    /// yields the local file it asks for, if any; other events yield nothing.
    pub fn handle_event(&self, event: &WebViewEvent) -> (r: Option<LocalFileRequest>)
        ensures
            match event {
                WebViewEvent::CustomSchemeRequest(url) => local_file_request_matches(
                    self.root(),
                    url@,
                    r,
                ),
                _ => r is None,
            },
    {
        match event {
            WebViewEvent::CustomSchemeRequest(url) => self.local_file_request(url.as_str()),
            _ => None,
        }
    }
}

} // verus!

verus! {

/// Whether no byte of `b` is `%`.
pub open spec fn no_percent_byte(b: Seq<u8>) -> bool {
    forall|i: int| 0 <= i < b.len() ==> #[trigger] b[i] != 0x25
}

proof fn lemma_decode_without_percent(b: Seq<u8>)
    requires
        no_percent_byte(b),
    ensures
        percent_decode_bytes(b) == b,
    decreases b.len(),
{
    if b.len() > 0 {
        assert(b[0] != 0x25);
        let rest = b.drop_first();
        assert(no_percent_byte(rest)) by {
            assert forall|i: int| 0 <= i < rest.len() implies #[trigger] rest[i] != 0x25 by {
                assert(rest[i] == b[i + 1]);
            }
        }
        lemma_decode_without_percent(rest);
        assert(seq![b[0]] + rest =~= b);
    }
}

proof fn lemma_scalar_bytes_not_percent(c: u32)
    requires
        is_scalar(c),
        c != 0x25,
    ensures
        no_percent_byte(encode_scalar(c)),
{
    if has_width_1_encoding(c) {
        assert(c <= 0x7f && c != 0x25 ==> (c & 0x7f) as u8 != 0x25u8) by (bit_vector);
    } else {
        assert(((0xC0u8 | ((c >> 6) & 0x1F) as u8) as u8) != 0x25u8) by (bit_vector);
        assert(((0xE0u8 | ((c >> 12) & 0x0F) as u8) as u8) != 0x25u8) by (bit_vector);
        assert(((0xF0u8 | ((c >> 18) & 0x7) as u8) as u8) != 0x25u8) by (bit_vector);
        assert(((0x80u8 | (c & 0x3F) as u8) as u8) != 0x25u8) by (bit_vector);
        assert(((0x80u8 | ((c >> 6) & 0x3F) as u8) as u8) != 0x25u8) by (bit_vector);
        assert(((0x80u8 | ((c >> 12) & 0x3F) as u8) as u8) != 0x25u8) by (bit_vector);
    }
}

proof fn lemma_encode_without_percent(p: Seq<char>)
    requires
        !p.contains('%'),
    ensures
        no_percent_byte(encode_utf8(p)),
    decreases p.len(),
{
    if p.len() > 0 {
        let c = p[0];
        assert(c != '%');
        char_is_scalar(c);
        assert(c as u32 != 0x25) by {
            char_u32_cast(c, c as u32);
            assert('%' as u32 == 0x25);
            char_u32_cast('%', 0x25);
        }
        lemma_scalar_bytes_not_percent(c as u32);
        let rest = p.drop_first();
        assert(!rest.contains('%')) by {
            if rest.contains('%') {
                let k = choose|k: int| 0 <= k < rest.len() && rest[k] == '%';
                assert(p[k + 1] == '%');
            }
        }
        lemma_encode_without_percent(rest);
        let a = encode_scalar(c as u32);
        let b = encode_utf8(rest);
        assert(encode_utf8(p) == a + b);
        assert forall|i: int| 0 <= i < (a + b).len() implies #[trigger] (a + b)[i] != 0x25 by {
            if i < a.len() {
                assert((a + b)[i] == a[i]);
            } else {
                assert((a + b)[i] == b[i - a.len()]);
            }
        }
    }
}

/// A local-file URL whose path holds no `%`, no `?` and no `..`, and does not
/// start with a slash, asks for exactly that path.
pub proof fn lemma_plain_path_asks_for_itself(p: Seq<char>)
    requires
        !p.contains('%'),
        !p.contains('?'),
        !has_parent_ref(p),
        p.len() == 0 || p[0] != '/',
    ensures
        local_file_relative_path_spec(local_file_url_prefix() + p) == Some(p),
{
    let prefix = local_file_url_prefix();
    let plen = prefix.len() as int;
    let url = prefix + p;
    assert(url.take(plen) =~= prefix);
    assert(url.skip(plen) =~= p);
    assert(strip_leading_slashes(p) == p);
    lemma_before_query_append(p, Seq::empty());
    lemma_encode_without_percent(p);
    lemma_decode_without_percent(encode_utf8(p));
    encode_utf8_valid_utf8(p);
    encode_utf8_decode_utf8(p);
}

} // verus!
