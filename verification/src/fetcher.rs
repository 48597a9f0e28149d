//! What a fetch is kept as: under which name and in which form.

use vstd::prelude::*;
use vstd::string::StringSliceAdditionalSpecFns;

verus! {

/// The sources whose fetched listings are kept.
#[derive(Copy, Clone, PartialEq, Eq, Debug, Structural)]
pub enum FetchSourceType {
    All,
    Billa,
    HeissePreise,
    Hofer,
    Mpreis,
    Spar,
}

/// The form in which a fetched listing is kept.
#[derive(Copy, Clone, PartialEq, Eq, Debug, Structural)]
pub enum FetchPersistType {
    /// The text as it is.
    Json,
    /// The text as a brotli stream.
    JsonBrotli,
}

/// The result of `DateTime::format` of chrono for the moment that lies
/// `seconds` after the start of 1970 in universal time, written after
/// `pattern`; none where chrono has no such moment or cannot follow the
/// pattern.
pub uninterp spec fn formatted_utc(seconds: int, pattern: Seq<char>) -> Option<Seq<char>>;

/// `DateTime::from_timestamp` and `DateTime::format` of chrono: the moment
/// `seconds` after the start of 1970, in universal time, written after
/// `pattern`. The text depends on the two arguments alone.
#[verifier::external_body]
fn format_utc(seconds: i64, pattern: &str) -> (text: Option<String>)
    ensures
        match text {
            Some(text) => formatted_utc(seconds as int, pattern@) == Some(text@),
            None => formatted_utc(seconds as int, pattern@) is None,
        },
{
    let moment = chrono::DateTime::from_timestamp(seconds, 0)?;
    let mut text = String::new();
    match moment.format(pattern).write_to(&mut text) {
        Ok(()) => Some(text),
        Err(_) => None,
    }
}

/// The bytes that a `CompressorWriter` of brotli hands to its sink when it
/// is made with the given buffer size, quality and window, `content` is
/// written to it whole and it is dropped: the brotli stream of `content`.
/// There are none where the writer reports an error. The encoder is built
/// with its table-driven logarithms, so that the bytes are the same on every
/// machine.
pub uninterp spec fn brotli_bytes(
    content: Seq<u8>,
    buffer_size: int,
    quality: int,
    window: int,
) -> Option<Seq<u8>>;

/// `CompressorWriter::new` of brotli, `write_all` on it and its drop:
/// `content` as one brotli stream. The bytes depend on the four arguments
/// alone. A buffer larger than the encoder ever needs is left out, since the
/// buffer is allocated at once; a quality or a window out of range is brought
/// into range by the encoder.
#[verifier::external_body]
fn brotli_stream(
    content: &[u8],
    buffer_size: usize,
    quality: u32,
    window: u32,
) -> (packed: Option<Vec<u8>>)
    requires
        buffer_size <= 65536,
    ensures
        match packed {
            Some(packed) => brotli_bytes(
                content@,
                buffer_size as int,
                quality as int,
                window as int,
            ) == Some(packed@),
            None => brotli_bytes(content@, buffer_size as int, quality as int, window as int)
                is None,
        },
{
    let mut packed: Vec<u8> = Vec::new();
    let mut writer = brotli::CompressorWriter::new(&mut packed, buffer_size, quality, window);
    let written = std::io::Write::write_all(&mut writer, content);
    drop(writer);
    match written {
        Ok(()) => Some(packed),
        Err(_) => None,
    }
}

/// The name of a source, as it stands in the names of the kept files.
pub open spec fn source_name(source: FetchSourceType) -> Seq<char> {
    match source {
        FetchSourceType::All => "All"@,
        FetchSourceType::Billa => "Billa"@,
        FetchSourceType::HeissePreise => "HeissePreise"@,
        FetchSourceType::Hofer => "Hofer"@,
        FetchSourceType::Mpreis => "Mpreis"@,
        FetchSourceType::Spar => "Spar"@,
    }
}

/// The ending of the name of a file that is kept in the form `target`.
pub open spec fn extension(target: FetchPersistType) -> Seq<char> {
    match target {
        FetchPersistType::Json => ".json"@,
        FetchPersistType::JsonBrotli => ".json.br"@,
    }
}

/// The name of the file that keeps the listing fetched from `source` on the
/// day `date`: the source, a hyphen, the day, and the ending of the form.
pub open spec fn file_name(
    source: FetchSourceType,
    date: Seq<char>,
    target: FetchPersistType,
) -> Seq<char> {
    source_name(source) + "-"@ + date + extension(target)
}

impl FetchSourceType {
    /// The name of the source.
    pub fn name(&self) -> (name: &'static str)
        ensures
            name@ == source_name(*self),
    {
        match self {
            FetchSourceType::All => "All",
            FetchSourceType::Billa => "Billa",
            FetchSourceType::HeissePreise => "HeissePreise",
            FetchSourceType::Hofer => "Hofer",
            FetchSourceType::Mpreis => "Mpreis",
            FetchSourceType::Spar => "Spar",
        }
    }
}

impl FetchPersistType {
    /// The ending of the names of the files kept in this form.
    pub fn extension(&self) -> (ending: &'static str)
        ensures
            ending@ == extension(*self),
    {
        match self {
            FetchPersistType::Json => ".json",
            FetchPersistType::JsonBrotli => ".json.br",
        }
    }
}

/// The name of the file that keeps the listing fetched from `source` on the
/// day that `date` writes.
pub fn archive_name_on(
    source: FetchSourceType,
    date: &str,
    target: FetchPersistType,
) -> (name: String)
    ensures
        name@ == file_name(source, date@, target),
{
    let mut name = String::from_str(source.name());
    name.append("-");
    name.append(date);
    name.append(target.extension());
    name
}

/// The name of the file that keeps the listing fetched from `source` at the
/// moment `seconds` after the start of 1970: the day is the one that the
/// moment falls on in universal time, written as year, month and day. There
/// is no name for a moment that has no such day.
pub fn archive_name(
    source: FetchSourceType,
    seconds: i64,
    target: FetchPersistType,
) -> (name: Option<String>)
    ensures
        match formatted_utc(seconds as int, "%Y-%m-%d"@) {
            Some(date) => name is Some && name->0@ == file_name(source, date, target),
            None => name is None,
        },
{
    match format_utc(seconds, "%Y-%m-%d") {
        Some(date) => Some(archive_name_on(source, date.as_str(), target)),
        None => None,
    }
}

/// The bytes to keep for the fetched text `content` in the form `target`:
/// the bytes of the text itself, or its brotli stream.
pub open spec fn kept_bytes(content: Seq<u8>, target: FetchPersistType) -> Option<Seq<u8>> {
    match target {
        FetchPersistType::Json => Some(content),
        FetchPersistType::JsonBrotli => brotli_bytes(content, 4096, 11, 22),
    }
}

/// The bytes to keep for the fetched text `content`: the text itself, or the
/// brotli stream of it, of the highest quality and a window of 22 bits,
/// where the encoder gives one.
pub fn encode(content: &str, target: FetchPersistType) -> (bytes: Option<Vec<u8>>)
    ensures
        match bytes {
            Some(bytes) => kept_bytes(content.spec_bytes(), target) == Some(bytes@),
            None => kept_bytes(content.spec_bytes(), target) is None,
        },
{
    match target {
        FetchPersistType::Json => Some(content.as_bytes_vec()),
        FetchPersistType::JsonBrotli => brotli_stream(content.as_bytes(), 4096, 11, 22),
    }
}

} // verus!
