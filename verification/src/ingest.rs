use vstd::prelude::*;
use crate::errors::AppError;
use crate::text::has_prefix;
use crate::text::str_eq;
use crate::text::str_has_prefix;

verus! {

/// How a define request's body is decoded, read off its content type.
#[derive(Clone, Copy, Debug, PartialEq, Eq, Structural)]
pub enum BodyKind {
    Json,
    Multipart,
    Unsupported,
}

/// JSON and multipart bodies are the only ones the define endpoint
/// accepts; anything else is unsupported media.
pub open spec fn spec_classify_content_type(ct: Seq<char>) -> BodyKind {
    if has_prefix(ct, "application/json"@) {
        BodyKind::Json
    } else if has_prefix(ct, "multipart/form-data"@) {
        BodyKind::Multipart
    } else {
        BodyKind::Unsupported
    }
}

pub fn classify_content_type(ct: &str) -> (k: BodyKind)
    ensures
        k == spec_classify_content_type(ct@),
{
    if str_has_prefix(ct, "application/json") {
        BodyKind::Json
    } else if str_has_prefix(ct, "multipart/form-data") {
        BodyKind::Multipart
    } else {
        BodyKind::Unsupported
    }
}

/// The first-present status alias wins; with none present, the default.
pub open spec fn spec_resolve_status(
    http_status_code: Option<u16>,
    status_code: Option<u16>,
    status: Option<u16>,
) -> u16 {
    match http_status_code {
        Some(c) => c,
        None => match status_code {
            Some(c) => c,
            None => match status {
                Some(c) => c,
                None => 200,
            },
        },
    }
}

pub fn resolve_status_alias(
    http_status_code: Option<u16>,
    status_code: Option<u16>,
    status: Option<u16>,
) -> (r: u16)
    ensures
        r == spec_resolve_status(http_status_code, status_code, status),
{
    match http_status_code {
        Some(c) => c,
        None => match status_code {
            Some(c) => c,
            None => match status {
                Some(c) => c,
                None => 200,
            },
        },
    }
}

pub open spec fn is_digit(c: char) -> bool {
    '0' <= c && c <= '9'
}

pub open spec fn digit_val(c: char) -> int {
    c as u32 - 48
}

pub open spec fn all_digits(s: Seq<char>) -> bool {
    forall|i: int| 0 <= i < s.len() ==> is_digit(#[trigger] s[i])
}

/// The number a digit string denotes, most significant digit first.
pub open spec fn digits_val(s: Seq<char>) -> int
    decreases s.len(),
{
    if s.len() == 0 {
        0
    } else {
        digits_val(s.drop_last()) * 10 + digit_val(s.last())
    }
}

/// The digit part of a status field, as std's integer parser reads it:
/// one optional leading `+` stripped, no other sign accepted.
pub open spec fn status_digits(s: Seq<char>) -> Seq<char> {
    if s.len() > 0 && s[0] == '+' {
        s.drop_first()
    } else {
        s
    }
}

/// Whether the string denotes a status code value: at least one digit,
/// digits only after the optional sign, and a value that fits.
pub open spec fn parses_as_u16(s: Seq<char>) -> bool {
    let d = status_digits(s);
    d.len() > 0 && all_digits(d) && digits_val(d) <= 65535
}

pub open spec fn u16_value_of(s: Seq<char>) -> int {
    digits_val(status_digits(s))
}

proof fn lemma_digits_val_nonneg(s: Seq<char>)
    requires
        all_digits(s),
    ensures
        digits_val(s) >= 0,
    decreases s.len(),
{
    if s.len() > 0 {
        assert(all_digits(s.drop_last())) by {
            assert(forall|i: int|
                0 <= i < s.drop_last().len() ==> s.drop_last()[i] == s[i]);
        }
        lemma_digits_val_nonneg(s.drop_last());
    }
}

proof fn lemma_digits_val_prefix_le(s: Seq<char>, i: int)
    requires
        all_digits(s),
        0 <= i <= s.len(),
    ensures
        digits_val(s.take(i)) <= digits_val(s),
    decreases s.len() - i,
{
    if i < s.len() {
        lemma_digits_val_prefix_le(s, i + 1);
        assert(s.take(i + 1).drop_last() =~= s.take(i));
        assert(all_digits(s.take(i))) by {
            assert(forall|j: int| 0 <= j < i ==> s.take(i)[j] == s[j]);
        }
        lemma_digits_val_nonneg(s.take(i));
        assert(digits_val(s.take(i + 1)) == digits_val(s.take(i)) * 10 + digit_val(s[i]));
    } else {
        assert(s.take(i) =~= s);
    }
}

/// Reads a status code the way std's `u16` parser would, or nothing when
/// std's parser would fail.
pub fn parse_u16(s: &str) -> (r: Option<u16>)
    ensures
        match r {
            Some(v) => parses_as_u16(s@) && v as int == u16_value_of(s@),
            None => !parses_as_u16(s@),
        },
{
    let n = s.unicode_len();
    let mut start: usize = 0;
    if n > 0 && s.get_char(0) == '+' {
        start = 1;
    }
    let ghost d = status_digits(s@);
    proof {
        assert(d =~= s@.subrange(start as int, n as int));
    }
    if start >= n {
        return None;
    }
    let mut i: usize = start;
    let mut acc: u32 = 0;
    while i < n
        invariant
            n == s@.len(),
            start <= i <= n,
            start < n,
            d == status_digits(s@),
            d == s@.subrange(start as int, n as int),
            forall|j: int| 0 <= j < i - start ==> is_digit(#[trigger] d[j]),
            acc == digits_val(d.take(i - start)),
            acc <= 65535,
        decreases n - i,
    {
        let c = s.get_char(i);
        if !('0' <= c && c <= '9') {
            proof {
                assert(d[i - start] == s@[i as int]);
                if parses_as_u16(s@) {
                    assert(is_digit(d[i - start]));
                }
            }
            return None;
        }
        let dv: u32 = (c as u32) - 48;
        proof {
            assert(d.take(i - start + 1).drop_last() =~= d.take(i - start));
            assert(d.take(i - start + 1).last() == d[i - start]);
            assert(d[i - start] == s@[i as int]);
        }
        acc = acc * 10 + dv;
        i += 1;
        if acc > 65535 {
            proof {
                if parses_as_u16(s@) {
                    lemma_digits_val_prefix_le(d, i - start);
                }
            }
            return None;
        }
    }
    proof {
        assert(d.take(n - start) =~= d);
        assert(all_digits(d));
    }
    Some(acc as u16)
}

/// What a multipart define request has gathered while its fields stream
/// in, in whatever order the client sent them.
#[derive(Debug)]
pub struct MultipartForm {
    pub method: Option<String>,
    pub path: Option<String>,
    pub status_code: Option<u16>,
    pub file_name: Option<String>,
    pub file_bytes: Option<Vec<u8>>,
}

/// Spec-level image of the gathered form.
#[verifier::ext_equal]
pub struct MultipartFormView {
    pub method: Option<Seq<char>>,
    pub path: Option<Seq<char>>,
    pub status_code: Option<u16>,
    pub file_name: Option<Seq<char>>,
    pub file_bytes: Option<Seq<u8>>,
}

impl View for MultipartForm {
    type V = MultipartFormView;

    open spec fn view(&self) -> MultipartFormView {
        MultipartFormView {
            method: match &self.method {
                Some(s) => Some(s@),
                None => None,
            },
            path: match &self.path {
                Some(s) => Some(s@),
                None => None,
            },
            status_code: self.status_code,
            file_name: match &self.file_name {
                Some(s) => Some(s@),
                None => None,
            },
            file_bytes: match &self.file_bytes {
                Some(b) => Some(b@),
                None => None,
            },
        }
    }
}

/// The three spellings a status field may arrive under.
pub open spec fn is_status_alias(name: Seq<char>) -> bool {
    name == "status"@ || name == "status_code"@ || name == "http_status_code"@
}

/// What one text field does to the gathered form: `method` and `path`
/// take the latest value sent; the three status aliases share one slot
/// that keeps the first value that parses; any other field is ignored.
pub open spec fn spec_text_field(
    f: MultipartFormView,
    name: Seq<char>,
    value: Seq<char>,
) -> MultipartFormView {
    if name == "method"@ {
        MultipartFormView { method: Some(value), ..f }
    } else if name == "path"@ {
        MultipartFormView { path: Some(value), ..f }
    } else if is_status_alias(name) {
        if f.status_code is None && parses_as_u16(value) {
            MultipartFormView { status_code: Some(u16_value_of(value) as u16), ..f }
        } else {
            f
        }
    } else {
        f
    }
}

/// What the file field does: it records the payload and the download
/// name — the client's filename, or `upload.bin` when none was sent —
/// and the latest file field wins.
pub open spec fn spec_file_field(
    f: MultipartFormView,
    file_name: Option<Seq<char>>,
    bytes: Seq<u8>,
) -> MultipartFormView {
    MultipartFormView {
        file_name: Some(
            match file_name {
                Some(n) => n,
                None => "upload.bin"@,
            },
        ),
        file_bytes: Some(bytes),
        ..f
    }
}

impl MultipartForm {
    pub fn new() -> (f: MultipartForm)
        ensures
            f@ == (MultipartFormView {
                method: None,
                path: None,
                status_code: None,
                file_name: None,
                file_bytes: None,
            }),
    {
        MultipartForm {
            method: None,
            path: None,
            status_code: None,
            file_name: None,
            file_bytes: None,
        }
    }

    pub fn text_field(&mut self, name: &str, value: String)
        ensures
            final(self)@ == spec_text_field(old(self)@, name@, value@),
    {
        if str_eq(name, "method") {
            self.method = Some(value);
            assert(self@ =~= spec_text_field(old(self)@, name@, value@));
        } else if str_eq(name, "path") {
            self.path = Some(value);
            assert(self@ =~= spec_text_field(old(self)@, name@, value@));
        } else if str_eq(name, "status") || str_eq(name, "status_code") || str_eq(
            name,
            "http_status_code",
        ) {
            if self.status_code.is_none() {
                match parse_u16(value.as_str()) {
                    Some(c) => {
                        self.status_code = Some(c);
                    },
                    None => {},
                }
            }
            assert(self@ =~= spec_text_field(old(self)@, name@, value@));
        } else {
            assert(self@ =~= spec_text_field(old(self)@, name@, value@));
        }
    }

    pub fn file_field(&mut self, file_name: Option<String>, bytes: Vec<u8>)
        ensures
            final(self)@ == spec_file_field(
                old(self)@,
                match file_name {
                    Some(n) => Some(n@),
                    None => None,
                },
                bytes@,
            ),
    {
        self.file_name = Some(
            match file_name {
                Some(n) => n,
                None => String::from_str("upload.bin"),
            },
        );
        self.file_bytes = Some(bytes);
        assert(self@ =~= spec_file_field(
            old(self)@,
            match file_name {
                Some(n) => Some(n@),
                None => None,
            },
            bytes@,
        ));
    }

    /// The complete request, or the validation failure: `method`, `path`
    /// and the file are all required; a gathered status stands, else the
    /// default 200. The file's presence is what forces the definition's
    /// type to File, whatever else the client sent.
    pub fn finish(self) -> (r: Result<(String, String, u16, String, Vec<u8>), AppError>)
        ensures
            match r {
                Ok(out) => {
                    &&& self@.method is Some && out.0@ == self@.method->0
                    &&& self@.path is Some && out.1@ == self@.path->0
                    &&& out.2 == (match self@.status_code {
                        Some(c) => c,
                        None => 200u16,
                    })
                    &&& self@.file_name is Some && out.3@ == self@.file_name->0
                    &&& self@.file_bytes is Some && out.4@ == self@.file_bytes->0
                },
                Err(e) => {
                    &&& e == AppError::MissingFields
                    &&& (self@.method is None || self@.path is None || self@.file_name is None
                        || self@.file_bytes is None)
                },
            },
    {
        let MultipartForm { method, path, status_code, file_name, file_bytes } = self;
        match (method, path, file_name, file_bytes) {
            (Some(m), Some(p), Some(f), Some(b)) => {
                let code = match status_code {
                    Some(c) => c,
                    None => 200,
                };
                Ok((m, p, code, f, b))
            },
            _ => Err(AppError::MissingFields),
        }
    }
}

} // verus!
