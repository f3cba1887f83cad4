//! What the bytes of a line are, and the text that they hold.
use vstd::prelude::*;

verus! {

/// What the bytes of a line are.
#[derive(Clone, Copy, Debug, PartialEq, Eq, Structural)]
pub enum ContentType {
    /// Not text.
    Binary,
    /// Text in UTF-8.
    Utf8,
    /// Text in UTF-8 after a byte order mark.
    Utf8Bom,
    /// Text in UTF-16, little endian.
    Utf16Le,
    /// Text in UTF-16, big endian.
    Utf16Be,
    /// Text in UTF-32, little endian.
    Utf32Le,
    /// Text in UTF-32, big endian.
    Utf32Be,
}

impl ContentType {
    /// Whether the content is not text.
    pub open spec fn spec_is_binary(self) -> bool {
        self == ContentType::Binary
    }

    /// Whether the content is text.
    pub open spec fn spec_is_text(self) -> bool {
        self != ContentType::Binary
    }

    /// Whether the content is not text.
    #[verifier::when_used_as_spec(spec_is_binary)]
    pub fn is_binary(self) -> (b: bool)
        ensures
            b == self.spec_is_binary(),
    {
        match self {
            ContentType::Binary => true,
            _ => false,
        }
    }

    /// Whether the content is text.
    #[verifier::when_used_as_spec(spec_is_text)]
    pub fn is_text(self) -> (b: bool)
        ensures
            b == self.spec_is_text(),
    {
        !self.is_binary()
    }
}

/// What stands for a line whose bytes are no UTF-16, little endian.
pub const INVALID_UTF_16LE: &'static str = "Invalid UTF-16LE";

/// What stands for a line whose bytes are no UTF-16, big endian.
pub const INVALID_UTF_16BE: &'static str = "Invalid UTF-16BE";

/// The text that the bytes hold as UTF-16, little endian, or `None` where
/// they are no such text.
pub uninterp spec fn utf16le_decoded(bytes: Seq<u8>) -> Option<Seq<char>>;

/// The text that the bytes hold as UTF-16, big endian, or `None` where they
/// are no such text.
pub uninterp spec fn utf16be_decoded(bytes: Seq<u8>) -> Option<Seq<char>>;

/// The text that the bytes hold as UTF-8, with the replacement character
/// for what is no UTF-8.
pub uninterp spec fn utf8_lossy(bytes: Seq<u8>) -> Seq<char>;

/// The text of a line of the given content; what is not text has none.
pub open spec fn decoded_line(content_type: ContentType, bytes: Seq<u8>) -> Option<Seq<char>> {
    match content_type {
        ContentType::Binary => None,
        ContentType::Utf16Le => Some(
            match utf16le_decoded(bytes) {
                Some(text) => text,
                None => INVALID_UTF_16LE@,
            },
        ),
        ContentType::Utf16Be => Some(
            match utf16be_decoded(bytes) {
                Some(text) => text,
                None => INVALID_UTF_16BE@,
            },
        ),
        _ => Some(utf8_lossy(bytes)),
    }
}

/// The `decode` method of `encoding::all::UTF_16LE`, strict: the text of
/// the bytes, or `None` where the decoder reports an error. The result
/// depends on the bytes alone.
#[verifier::external_body]
fn decode_utf16le(bytes: &[u8]) -> (text: Option<String>)
    ensures
        match text {
            Some(t) => utf16le_decoded(bytes@) == Some(t@),
            None => utf16le_decoded(bytes@) is None,
        },
{
    encoding::Encoding::decode(encoding::all::UTF_16LE, bytes, encoding::DecoderTrap::Strict).ok()
}

/// The `decode` method of `encoding::all::UTF_16BE`, strict: the text of
/// the bytes, or `None` where the decoder reports an error. The result
/// depends on the bytes alone.
#[verifier::external_body]
fn decode_utf16be(bytes: &[u8]) -> (text: Option<String>)
    ensures
        match text {
            Some(t) => utf16be_decoded(bytes@) == Some(t@),
            None => utf16be_decoded(bytes@) is None,
        },
{
    encoding::Encoding::decode(encoding::all::UTF_16BE, bytes, encoding::DecoderTrap::Strict).ok()
}

/// `String::from_utf8_lossy`: the text of the bytes, with the replacement
/// character in place of what is no UTF-8. The result depends on the bytes
/// alone.
#[verifier::external_body]
fn from_utf8_lossy(bytes: &[u8]) -> (text: String)
    ensures
        text@ == utf8_lossy(bytes@),
{
    String::from_utf8_lossy(bytes).into_owned()
}

/// The text that was decoded, or else the text that says that there was
/// none.
pub fn text_or_invalid(decoded: Option<String>, invalid: &str) -> (text: String)
    ensures
        text@ == (match decoded {
            Some(t) => t@,
            None => invalid@,
        }),
{
    match decoded {
        Some(text) => text,
        None => String::from_str(invalid),
    }
}

/// The text of a line of the given content, or `None` for binary content.
/// Bytes that are no UTF-16 give a fixed text that says so; bytes that are
/// no UTF-8 give the replacement character.
pub fn decode_line(content_type: ContentType, line_buffer: &[u8]) -> (line: Option<String>)
    ensures
        match line {
            Some(text) => decoded_line(content_type, line_buffer@) == Some(text@),
            None => decoded_line(content_type, line_buffer@) is None,
        },
{
    match content_type {
        ContentType::Binary => None,
        ContentType::Utf16Le => Some(
            text_or_invalid(decode_utf16le(line_buffer), INVALID_UTF_16LE),
        ),
        ContentType::Utf16Be => Some(
            text_or_invalid(decode_utf16be(line_buffer), INVALID_UTF_16BE),
        ),
        _ => Some(from_utf8_lossy(line_buffer)),
    }
}

} // verus!
