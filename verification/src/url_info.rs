//! What a prefetch learned about the file behind a URL, as the C caller reads
//! and edits it, and the file name that is safe to save it under.
use vstd::prelude::*;
use vstd::utf8::{
    encode_scalar, encode_utf8, has_width_1_encoding, has_width_2_encoding,
    has_width_3_encoding, valid_utf8,
};
use crate::ctext::{has_no_nul, or_empty, utf8_bytes, CText};
use crate::text::{utf8_is_valid, utf8_lossy, utf8_lossy_text};
use fast_down_ffi::UrlInfo as DownloaderUrlInfo;

verus! {

#[verifier::external_type_specification]
#[verifier::external_body]
pub struct ExUrl(url::Url);

#[verifier::external_type_specification]
#[verifier::external_body]
pub struct ExFfiUrlInfo(DownloaderUrlInfo);

/// What `url::Url::parse` gives for the text: the parsed URL, or none when it
/// refuses the text. It reads nothing but the text.
pub uninterp spec fn parsed_url(text: Seq<char>) -> Option<url::Url>;

/// Calls `url::Url::parse`; its result is named by `parsed_url`. The parsed URL
/// is opaque here.
#[verifier::external_body]
pub(crate) fn url_parse(text: &str) -> (r: Option<url::Url>)
    ensures
        r == parsed_url(text@),
{
    url::Url::parse(text).ok()
}

/// The name that `path_helper::sanitize_filename` makes of `name` when its
/// length is limited to `max_units`, on the target that this library is built
/// for.
pub uninterp spec fn sanitized_filename(name: Seq<char>, max_units: usize) -> Seq<char>;

/// Characters that `path_helper::sanitize_filename` replaces: the path and
/// shell metacharacters `/ ? < > \ : * | "` and the control characters
/// U+0000 to U+001F and U+0080 to U+009F.
pub open spec fn forbidden_in_filename(c: u32) -> bool {
    ||| c == 0x2F
    ||| c == 0x3F
    ||| c == 0x3C
    ||| c == 0x3E
    ||| c == 0x5C
    ||| c == 0x3A
    ||| c == 0x2A
    ||| c == 0x7C
    ||| c == 0x22
    ||| c <= 0x1F
    ||| 0x80 <= c <= 0x9F
}

/// Calls `path_helper::sanitize_filename`. Its source replaces each forbidden
/// character by `_`, then keeps the extension and cuts the name so that its
/// length (bytes on Unix, UTF-16 units on Windows) is at most `max_units`; the
/// result is made only of characters of the replaced text. So no character of
/// the result is forbidden, and it has at most `max_units` characters. The
/// rest of the result is named by `sanitized_filename`.
#[verifier::external_body]
fn sanitize_filename(name: &str, max_units: usize) -> (r: String)
    ensures
        r@ == sanitized_filename(name@, max_units),
        r@.len() <= max_units,
        forall|i: int| 0 <= i < r@.len() ==> !forbidden_in_filename(#[trigger] r@[i] as u32),
{
    path_helper::sanitize_filename(name, max_units)
}

/// The downloader's record of a file (`fast_down_ffi::UrlInfo` with its
/// `FileId`) with these fields, its URL being the one that `url::Url::parse`
/// makes of `final_url`.
pub uninterp spec fn downloader_info(
    size: u64,
    raw_name: Seq<char>,
    supports_range: bool,
    fast_download: bool,
    final_url: Seq<char>,
    etag: Option<Seq<char>>,
    last_modified: Option<Seq<char>>,
    content_type: Option<Seq<char>>,
) -> DownloaderUrlInfo;

/// Optional text taken by its view.
pub open spec fn opt_text(t: Option<String>) -> Option<Seq<char>> {
    match t {
        Some(s) => Some(s@),
        None => None,
    }
}

/// Builds a `fast_down_ffi::UrlInfo` (with its `FileId`) from its fields; the
/// record is a plain struct of them. `final_url` must be the URL parsed from
/// `final_url_text`, so that the record is named by `downloader_info` over the
/// texts.
#[verifier::external_body]
fn ffi_url_info(
    size: u64,
    raw_name: String,
    supports_range: bool,
    fast_download: bool,
    final_url: url::Url,
    final_url_text: &str,
    etag: Option<String>,
    last_modified: Option<String>,
    content_type: Option<String>,
) -> (r: DownloaderUrlInfo)
    requires
        parsed_url(final_url_text@) == Some(final_url),
    ensures
        r == downloader_info(
            size,
            raw_name@,
            supports_range,
            fast_download,
            final_url_text@,
            opt_text(etag),
            opt_text(last_modified),
            opt_text(content_type),
        ),
{
    let _ = final_url_text;
    DownloaderUrlInfo {
        size,
        raw_name,
        supports_range,
        fast_download,
        final_url,
        file_id: fast_down_ffi::FileId {
            etag: etag.map(std::sync::Arc::from),
            last_modified: last_modified.map(std::sync::Arc::from),
        },
        content_type,
    }
}

/// The longest file name, in the sanitizer's units, that `filename` returns.
pub const MAX_FILENAME_UNITS: usize = 255;

/// ASCII bytes that never occur in a safe file name: NUL and the other control
/// bytes, and `/ ? < > \ : * | "`.
pub open spec fn forbidden_byte(b: u8) -> bool {
    b < 0x80 && forbidden_in_filename(b as u32)
}

/// The safe file name for the raw name bytes `raw`: the raw name decoded
/// lossily, sanitized to at most 255 units, as a C string.
pub open spec fn safe_filename(raw: Seq<u8>) -> Seq<u8> {
    or_empty(utf8_bytes(sanitized_filename(utf8_lossy_text(raw), MAX_FILENAME_UNITS)))
}

/// A byte below 0x80 in the UTF-8 encoding of a character is that character.
proof fn lemma_scalar_ascii_bytes(c: char)
    ensures
        forall|k: int|
            0 <= k < encode_scalar(c as u32).len() && encode_scalar(c as u32)[k] < 0x80 ==> (
            #[trigger] encode_scalar(c as u32)[k]) as u32 == c as u32,
{
    vstd::utf8::char_is_scalar(c);
    let s = c as u32;
    if has_width_1_encoding(s) {
        assert((s & 0x7F) as u8 as u32 == s) by (bit_vector)
            requires
                s <= 0x7F,
        ;
    } else {
        assert(0xC0u8 | ((s >> 6) & 0x1F) as u8 >= 0x80) by (bit_vector);
        assert(0xE0u8 | ((s >> 12) & 0x0F) as u8 >= 0x80) by (bit_vector);
        assert(0xF0u8 | ((s >> 18) & 0x7) as u8 >= 0x80) by (bit_vector);
        assert(0x80u8 | (s & 0x3F) as u8 >= 0x80) by (bit_vector);
        assert(0x80u8 | ((s >> 6) & 0x3F) as u8 >= 0x80) by (bit_vector);
        assert(0x80u8 | ((s >> 12) & 0x3F) as u8 >= 0x80) by (bit_vector);
        if has_width_2_encoding(s) {
        } else if has_width_3_encoding(s) {
        } else {
        }
    }
}

/// Every byte below 0x80 in the UTF-8 encoding of a text is one of its
/// characters: UTF-8 uses such bytes for ASCII characters alone.
pub proof fn lemma_encoding_ascii_bytes(chars: Seq<char>)
    ensures
        forall|j: int|
            0 <= j < encode_utf8(chars).len() && #[trigger] encode_utf8(chars)[j] < 0x80 ==> exists|
                i: int,
            |
                0 <= i < chars.len() && (#[trigger] chars[i]) as u32 == encode_utf8(chars)[j] as u32,
    decreases chars.len(),
{
    if chars.len() > 0 {
        let first = encode_scalar(chars[0] as u32);
        let rest = chars.drop_first();
        lemma_scalar_ascii_bytes(chars[0]);
        lemma_encoding_ascii_bytes(rest);
        assert(encode_utf8(chars) == first + encode_utf8(rest));
        assert forall|j: int|
            0 <= j < encode_utf8(chars).len() && #[trigger] encode_utf8(chars)[j] < 0x80 implies exists|
                i: int,
            |
                0 <= i < chars.len() && (#[trigger] chars[i]) as u32 == encode_utf8(chars)[j] as u32 by {
            if j < first.len() {
                assert(first[j] == encode_utf8(chars)[j]);
                assert(chars[0] as u32 == encode_utf8(chars)[j] as u32);
            } else {
                let j2 = j - first.len();
                assert(encode_utf8(rest)[j2] == encode_utf8(chars)[j]);
                let i2 = choose|i2: int|
                    0 <= i2 < rest.len() && (#[trigger] rest[i2]) as u32 == encode_utf8(
                        rest,
                    )[j2] as u32;
                assert(chars[i2 + 1] == rest[i2]);
            }
        }
    }
}

/// Law: the UTF-8 encoding of a text without forbidden characters holds no
/// forbidden byte, and in particular no NUL, so it is a C string as it stands.
pub proof fn lemma_clean_encoding(chars: Seq<char>)
    requires
        forall|i: int| 0 <= i < chars.len() ==> !forbidden_in_filename(#[trigger] chars[i] as u32),
    ensures
        forall|j: int|
            0 <= j < encode_utf8(chars).len() ==> !forbidden_byte(#[trigger] encode_utf8(chars)[j]),
        has_no_nul(encode_utf8(chars)),
        or_empty(encode_utf8(chars)) == encode_utf8(chars),
{
    lemma_encoding_ascii_bytes(chars);
    assert forall|j: int| 0 <= j < encode_utf8(chars).len() implies !forbidden_byte(
        #[trigger] encode_utf8(chars)[j],
    ) by {
        if encode_utf8(chars)[j] < 0x80 {
            let i = choose|i: int|
                0 <= i < chars.len() && (#[trigger] chars[i]) as u32 == encode_utf8(chars)[j] as u32;
            assert(!forbidden_in_filename(chars[i] as u32));
        }
    }
    assert forall|j: int| 0 <= j < encode_utf8(chars).len() implies encode_utf8(chars)[j] != 0u8 by {
        assert(!forbidden_byte(encode_utf8(chars)[j]));
    }
}

/// What is known of the file behind a URL.
pub struct UrlInfo {
    size: u64,
    /// The file name that the server sent; it must be sanitized before use.
    raw_name: CText,
    /// The sanitized name, once computed.
    safe_name: Option<CText>,
    supports_range: bool,
    fast_download: bool,
    final_url: CText,
    etag: Option<CText>,
    last_modified: Option<CText>,
    content_type: Option<CText>,
}

/// A `UrlInfo` taken by its view; the cached file name is left out, as it is
/// determined by the raw name.
pub struct UrlInfoView {
    pub size: u64,
    pub raw_name: Seq<u8>,
    pub supports_range: bool,
    pub fast_download: bool,
    pub final_url: Seq<u8>,
    pub etag: Option<Seq<u8>>,
    pub last_modified: Option<Seq<u8>>,
    pub content_type: Option<Seq<u8>>,
}

/// Optional text made into optional UTF-8 bytes.
pub open spec fn opt_utf8(t: Option<Seq<char>>) -> Option<Seq<u8>> {
    match t {
        Some(x) => Some(utf8_bytes(x)),
        None => None,
    }
}

/// Lossy decoding gives back a text from its UTF-8 bytes where it gives back
/// those bytes.
proof fn lemma_opt_decodes_to_text(t: Option<Seq<char>>)
    requires
        decodes_back(opt_utf8(t)),
    ensures
        opt_lossy_text(opt_utf8(t)) == t,
{
    if let Some(x) = t {
        vstd::utf8::encode_utf8_valid_utf8(x);
        crate::text::law_utf8_text_is_determined(x, utf8_lossy_text(utf8_bytes(x)));
    }
}

/// Law: information made from the downloader's texts (their UTF-8 bytes) goes
/// back to the downloader's record of the same texts: with what `to_ffi`
/// ensures of the decoding, its record is the one of the original fields.
pub proof fn law_to_ffi_round_trip(
    info: UrlInfoView,
    raw_name: Seq<char>,
    final_url: Seq<char>,
    etag: Option<Seq<char>>,
    last_modified: Option<Seq<char>>,
    content_type: Option<Seq<char>>,
)
    requires
        info.raw_name == utf8_bytes(raw_name),
        info.final_url == utf8_bytes(final_url),
        info.etag == opt_utf8(etag),
        info.last_modified == opt_utf8(last_modified),
        info.content_type == opt_utf8(content_type),
        valid_utf8(info.raw_name) ==> utf8_bytes(utf8_lossy_text(info.raw_name)) == info.raw_name,
        valid_utf8(info.final_url) ==> utf8_bytes(utf8_lossy_text(info.final_url))
            == info.final_url,
        decodes_back(info.etag),
        decodes_back(info.last_modified),
        decodes_back(info.content_type),
    ensures
        downloader_info(
            info.size,
            utf8_lossy_text(info.raw_name),
            info.supports_range,
            info.fast_download,
            utf8_lossy_text(info.final_url),
            opt_lossy_text(info.etag),
            opt_lossy_text(info.last_modified),
            opt_lossy_text(info.content_type),
        ) == downloader_info(
            info.size,
            raw_name,
            info.supports_range,
            info.fast_download,
            final_url,
            etag,
            last_modified,
            content_type,
        ),
{
    vstd::utf8::encode_utf8_valid_utf8(raw_name);
    vstd::utf8::encode_utf8_valid_utf8(final_url);
    crate::text::law_utf8_text_is_determined(raw_name, utf8_lossy_text(info.raw_name));
    crate::text::law_utf8_text_is_determined(final_url, utf8_lossy_text(info.final_url));
    lemma_opt_decodes_to_text(etag);
    lemma_opt_decodes_to_text(last_modified);
    lemma_opt_decodes_to_text(content_type);
}

/// An optional C string taken by its view.
pub open spec fn opt_view(t: Option<CText>) -> Option<Seq<u8>> {
    match t {
        Some(x) => Some(x@),
        None => None,
    }
}

/// An optional C string made from optional bytes.
pub open spec fn opt_or_empty(b: Option<Seq<u8>>) -> Option<Seq<u8>> {
    match b {
        Some(x) => Some(or_empty(x)),
        None => None,
    }
}

/// Optional bytes decoded lossily.
pub open spec fn opt_lossy_text(b: Option<Seq<u8>>) -> Option<Seq<char>> {
    match b {
        Some(x) => Some(utf8_lossy_text(x)),
        None => None,
    }
}

/// The bytes, if any, give back themselves when decoded lossily and encoded
/// again, where they are valid UTF-8.
pub open spec fn decodes_back(b: Option<Seq<u8>>) -> bool {
    match b {
        Some(x) => valid_utf8(x) ==> utf8_bytes(utf8_lossy_text(x)) == x,
        None => true,
    }
}

/// Optional bytes made into an optional C string.
fn opt_ctext(b: Option<&[u8]>) -> (r: Option<CText>)
    ensures
        opt_view(r) == opt_or_empty(
            match b {
                Some(x) => Some(x@),
                None => None,
            },
        ),
{
    match b {
        Some(x) => Some(CText::from_bytes_or_empty(x)),
        None => None,
    }
}

/// An optional C string decoded lossily.
fn opt_lossy(t: &Option<CText>) -> (r: Option<String>)
    ensures
        opt_text(r) == opt_lossy_text(opt_view(*t)),
        decodes_back(opt_view(*t)),
{
    match t {
        Some(x) => Some(utf8_lossy(x.content())),
        None => None,
    }
}

impl View for UrlInfo {
    type V = UrlInfoView;

    closed spec fn view(&self) -> UrlInfoView {
        UrlInfoView {
            size: self.size,
            raw_name: self.raw_name@,
            supports_range: self.supports_range,
            fast_download: self.fast_download,
            final_url: self.final_url@,
            etag: opt_view(self.etag),
            last_modified: opt_view(self.last_modified),
            content_type: opt_view(self.content_type),
        }
    }
}

impl UrlInfo {
    /// The safe file name kept from the last `filename` call, if the raw name
    /// has not changed since; `filename` hands it back without computing it
    /// again.
    pub closed spec fn cached_filename(&self) -> Option<Seq<u8>> {
        match self.safe_name {
            Some(n) => Some(n@),
            None => None,
        }
    }
}

impl UrlInfo {
    /// The cached file name, once computed, is the safe name of the raw name,
    /// the sanitized text as it stands, with no forbidden byte.
    #[verifier::type_invariant]
    spec fn cache_matches(&self) -> bool {
        self.safe_name matches Some(n) ==> {
            &&& n@ == safe_filename(self.raw_name@)
            &&& n@ == utf8_bytes(
                sanitized_filename(utf8_lossy_text(self.raw_name@), MAX_FILENAME_UNITS),
            )
            &&& forall|j: int| 0 <= j < n@.len() ==> !forbidden_byte(#[trigger] n@[j])
        }
    }

    /// The information on a prefetched file, from the downloader's fields; every
    /// text becomes a C string, empty where it holds a NUL byte.
    pub fn new(
        size: u64,
        raw_name: &[u8],
        supports_range: bool,
        fast_download: bool,
        final_url: &[u8],
        etag: Option<&[u8]>,
        last_modified: Option<&[u8]>,
        content_type: Option<&[u8]>,
    ) -> (r: UrlInfo)
        ensures
            r.cached_filename() is None,
            r@ == (UrlInfoView {
                size,
                raw_name: or_empty(raw_name@),
                supports_range,
                fast_download,
                final_url: or_empty(final_url@),
                etag: opt_or_empty(
                    match etag {
                        Some(x) => Some(x@),
                        None => None,
                    },
                ),
                last_modified: opt_or_empty(
                    match last_modified {
                        Some(x) => Some(x@),
                        None => None,
                    },
                ),
                content_type: opt_or_empty(
                    match content_type {
                        Some(x) => Some(x@),
                        None => None,
                    },
                ),
            }),
    {
        UrlInfo {
            size,
            raw_name: CText::from_bytes_or_empty(raw_name),
            safe_name: None,
            supports_range,
            fast_download,
            final_url: CText::from_bytes_or_empty(final_url),
            etag: opt_ctext(etag),
            last_modified: opt_ctext(last_modified),
            content_type: opt_ctext(content_type),
        }
    }

    /// The size of the file in bytes (0 when unknown).
    pub fn size(&self) -> (r: u64)
        ensures
            r == self@.size,
    {
        self.size
    }

    /// The file name that the server sent.
    pub fn raw_name(&self) -> (r: &CText)
        ensures
            r@ == self@.raw_name,
    {
        &self.raw_name
    }

    /// Whether the server serves byte ranges.
    pub fn supports_range(&self) -> (r: bool)
        ensures
            r == self@.supports_range,
    {
        self.supports_range
    }

    /// Whether the file can be downloaded by several workers at once.
    pub fn fast_download(&self) -> (r: bool)
        ensures
            r == self@.fast_download,
    {
        self.fast_download
    }

    /// The URL after redirects.
    pub fn final_url(&self) -> (r: &CText)
        ensures
            r@ == self@.final_url,
    {
        &self.final_url
    }

    /// The entity tag, if the server sent one.
    pub fn etag(&self) -> (r: Option<&CText>)
        ensures
            match r {
                Some(t) => self@.etag == Some(t@),
                None => self@.etag is None,
            },
    {
        self.etag.as_ref()
    }

    /// The last modification date, if the server sent one.
    pub fn last_modified(&self) -> (r: Option<&CText>)
        ensures
            match r {
                Some(t) => self@.last_modified == Some(t@),
                None => self@.last_modified is None,
            },
    {
        self.last_modified.as_ref()
    }

    /// The content type, if the server sent one.
    pub fn content_type(&self) -> (r: Option<&CText>)
        ensures
            match r {
                Some(t) => self@.content_type == Some(t@),
                None => self@.content_type is None,
            },
    {
        self.content_type.as_ref()
    }

    /// The file name that is safe to save the file under: the raw name decoded
    /// lossily and sanitized. It is computed once and kept until the raw name
    /// changes: a cached name is handed back as it is. It holds no forbidden
    /// byte (no NUL, no path separator), so the sanitized text is never
    /// replaced by an empty name. It takes `&mut self` because it fills the
    /// cache; verified code has no interior mutability for it.
    pub fn filename(&mut self) -> (r: &CText)
        ensures
            old(self).cached_filename() matches Some(c) ==> r@ == c,
            final(self).cached_filename() == Some(r@),
            final(self)@ == old(self)@,
            r@ == safe_filename(old(self)@.raw_name),
            r@ == utf8_bytes(sanitized_filename(utf8_lossy_text(old(self)@.raw_name), MAX_FILENAME_UNITS)),
            forall|j: int| 0 <= j < r@.len() ==> !forbidden_byte(#[trigger] r@[j]),
    {
        proof {
            use_type_invariant(&*self);
        }
        if self.safe_name.is_none() {
            let text = utf8_lossy(self.raw_name.content());
            let cleaned = sanitize_filename(text.as_str(), MAX_FILENAME_UNITS);
            proof {
                lemma_clean_encoding(cleaned@);
            }
            self.safe_name = Some(CText::from_str_or_empty(cleaned.as_str()));
        }
        self.safe_name.as_ref().unwrap()
    }

    /// Replaces the raw file name; the cached safe name is dropped.
    pub fn update_raw_name(&mut self, raw_name: CText)
        ensures
            final(self).cached_filename() is None,
            final(self)@ == (UrlInfoView { raw_name: raw_name@, ..old(self)@ }),
    {
        self.safe_name = None;
        self.raw_name = raw_name;
    }

    /// Sets the size of the file.
    pub fn set_size(&mut self, size: u64)
        ensures
            final(self).cached_filename() == old(self).cached_filename(),
            final(self)@ == (UrlInfoView { size, ..old(self)@ }),
    {
        proof {
            use_type_invariant(&*self);
        }
        self.size = size;
    }

    /// Sets whether the server serves byte ranges.
    pub fn set_supports_range(&mut self, value: bool)
        ensures
            final(self).cached_filename() == old(self).cached_filename(),
            final(self)@ == (UrlInfoView { supports_range: value, ..old(self)@ }),
    {
        proof {
            use_type_invariant(&*self);
        }
        self.supports_range = value;
    }

    /// Sets whether several workers may download at once.
    pub fn set_fast_download(&mut self, value: bool)
        ensures
            final(self).cached_filename() == old(self).cached_filename(),
            final(self)@ == (UrlInfoView { fast_download: value, ..old(self)@ }),
    {
        proof {
            use_type_invariant(&*self);
        }
        self.fast_download = value;
    }

    /// Sets the final URL.
    pub fn set_final_url(&mut self, url: CText)
        ensures
            final(self).cached_filename() == old(self).cached_filename(),
            final(self)@ == (UrlInfoView { final_url: url@, ..old(self)@ }),
    {
        proof {
            use_type_invariant(&*self);
        }
        self.final_url = url;
    }

    /// Sets or clears the entity tag. Bytes that are not valid UTF-8 are
    /// refused and leave the tag as it was.
    pub fn set_etag(&mut self, etag: Option<&[u8]>)
        ensures
            final(self).cached_filename() == old(self).cached_filename(),
            final(self)@ == (match etag {
                None => UrlInfoView { etag: None, ..old(self)@ },
                Some(b) => if valid_utf8(b@) {
                    UrlInfoView { etag: Some(or_empty(b@)), ..old(self)@ }
                } else {
                    old(self)@
                },
            }),
    {
        proof {
            use_type_invariant(&*self);
        }
        match etag {
            None => {
                self.etag = None;
            },
            Some(b) => {
                if utf8_is_valid(b) {
                    self.etag = Some(CText::from_bytes_or_empty(b));
                }
            },
        }
    }

    /// Sets or clears the last modification date.
    pub fn set_last_modified(&mut self, last_modified: Option<&[u8]>)
        ensures
            final(self).cached_filename() == old(self).cached_filename(),
            final(self)@ == (UrlInfoView {
                last_modified: opt_or_empty(
                    match last_modified {
                        Some(x) => Some(x@),
                        None => None,
                    },
                ),
                ..old(self)@
            }),
    {
        proof {
            use_type_invariant(&*self);
        }
        self.last_modified = opt_ctext(last_modified);
    }

    /// Sets or clears the content type.
    pub fn set_content_type(&mut self, content_type: Option<&[u8]>)
        ensures
            final(self).cached_filename() == old(self).cached_filename(),
            final(self)@ == (UrlInfoView {
                content_type: opt_or_empty(
                    match content_type {
                        Some(x) => Some(x@),
                        None => None,
                    },
                ),
                ..old(self)@
            }),
    {
        proof {
            use_type_invariant(&*self);
        }
        self.content_type = opt_ctext(content_type);
    }

    /// The downloader's form of this information: the texts decoded lossily,
    /// the final URL parsed; none when the final URL, so decoded, does not
    /// parse. Texts that are valid UTF-8 are decoded as they are.
    pub fn to_ffi(&self) -> (r: Option<DownloaderUrlInfo>)
        ensures
            r is Some == parsed_url(utf8_lossy_text(self@.final_url)) is Some,
            r matches Some(j) ==> j == downloader_info(
                self@.size,
                utf8_lossy_text(self@.raw_name),
                self@.supports_range,
                self@.fast_download,
                utf8_lossy_text(self@.final_url),
                opt_lossy_text(self@.etag),
                opt_lossy_text(self@.last_modified),
                opt_lossy_text(self@.content_type),
            ),
            valid_utf8(self@.raw_name) ==> utf8_bytes(utf8_lossy_text(self@.raw_name))
                == self@.raw_name,
            valid_utf8(self@.final_url) ==> utf8_bytes(utf8_lossy_text(self@.final_url))
                == self@.final_url,
            decodes_back(self@.etag),
            decodes_back(self@.last_modified),
            decodes_back(self@.content_type),
    {
        let url_text = utf8_lossy(self.final_url.content());
        let raw_name = utf8_lossy(self.raw_name.content());
        let etag = opt_lossy(&self.etag);
        let last_modified = opt_lossy(&self.last_modified);
        let content_type = opt_lossy(&self.content_type);
        let url = match url_parse(url_text.as_str()) {
            Some(u) => u,
            None => {
                return None;
            },
        };
        Some(
            ffi_url_info(
                self.size,
                raw_name,
                self.supports_range,
                self.fast_download,
                url,
                url_text.as_str(),
                etag,
                last_modified,
                content_type,
            ),
        )
    }
}

/// The view of information where nothing is known.
pub open spec fn unknown_info() -> UrlInfoView {
    UrlInfoView {
        size: 0,
        raw_name: Seq::empty(),
        supports_range: false,
        fast_download: false,
        final_url: Seq::empty(),
        etag: None,
        last_modified: None,
        content_type: None,
    }
}

impl Default for UrlInfo {
    /// Nothing known: size 0, empty names and URL, no optional fields.
    fn default() -> (r: UrlInfo)
        ensures
            r.cached_filename() is None,
            r@ == unknown_info(),
    {
        UrlInfo {
            size: 0,
            raw_name: CText::empty(),
            safe_name: None,
            supports_range: false,
            fast_download: false,
            final_url: CText::empty(),
            etag: None,
            last_modified: None,
            content_type: None,
        }
    }
}

/// Law: information where nothing is known has size 0, an empty raw name and
/// final URL, both flags false and no optional field.
pub proof fn law_unknown_info()
    ensures
        unknown_info().size == 0,
        unknown_info().raw_name.len() == 0,
        unknown_info().final_url.len() == 0,
        !unknown_info().supports_range,
        !unknown_info().fast_download,
        unknown_info().etag is None,
        unknown_info().last_modified is None,
        unknown_info().content_type is None,
{
}

} // verus!
