//! The scan of one file: whether it is ingested at all, and the hash of its
//! content by which a later pass knows it again.

use crate::path::{components, split};
use crate::text::{chars_of, copy_str, lowercase, rows, slice_of, str_eq, string_of, to_lowercase};
use vstd::prelude::*;
use vstd::string::StringSliceAdditionalSpecFns;

verus! {

/// What was read of one file.
#[derive(Debug, Clone, PartialEq)]
pub struct FileValue {
    pub path: String,
    pub content: String,
    pub hash: String,
    pub extension: String,
}

pub struct Scanner;

/// The SHA-256 digest of a sequence of bytes.
pub uninterp spec fn sha256_digest(data: Seq<u8>) -> Seq<u8>;

/// `sha2::Sha256::digest`: the SHA-256 digest of the data, which is 32 bytes
/// long. The result depends on the data alone.
#[verifier::external_body]
pub(crate) fn sha256(data: &[u8]) -> (out: Vec<u8>)
    ensures
        out@ == sha256_digest(data@),
        out@.len() == 32,
{
    <sha2::Sha256 as sha2::Digest>::digest(data).to_vec()
}

/// The character that writes a hexadecimal digit in lower case.
pub open spec fn hex_digit(d: int) -> char {
    if d == 10 {
        'a'
    } else if d == 11 {
        'b'
    } else if d == 12 {
        'c'
    } else if d == 13 {
        'd'
    } else if d == 14 {
        'e'
    } else if d == 15 {
        'f'
    } else {
        crate::text::digit_char(d)
    }
}

/// The bytes written in hexadecimal: two lower-case digits for each byte,
/// the high one first.
pub open spec fn hex_lower(data: Seq<u8>) -> Seq<char> {
    Seq::new(
        2 * data.len(),
        |i: int|
            if i % 2 == 0 {
                hex_digit(data[i / 2] as int / 16)
            } else {
                hex_digit(data[i / 2] as int % 16)
            },
    )
}

/// `hex::encode`: the data as a hexadecimal string in lower case, two digits
/// for each byte.
#[verifier::external_body]
pub(crate) fn hex_encode(data: &Vec<u8>) -> (out: String)
    ensures
        out@ == hex_lower(data@),
{
    hex::encode(data)
}

/// The hash of a content: the SHA-256 digest of its UTF-8 bytes, in
/// hexadecimal.
pub open spec fn hash_text(content: Seq<char>) -> Seq<char> {
    hex_lower(sha256_digest(vstd::utf8::encode_utf8(content)))
}

/// The hash of a content.
pub fn content_hash(content: &str) -> (out: String)
    ensures
        out@ == hash_text(content@),
        out@.len() == 64,
{
    let digest = sha256(content.as_bytes());
    hex_encode(&digest)
}

/// The index of the last `c` before index `end`, or -1.
pub open spec fn last_index(s: Seq<char>, c: char, end: int) -> int
    decreases end,
{
    if end <= 0 || end > s.len() {
        -1
    } else if s[end - 1] == c {
        end - 1
    } else {
        last_index(s, c, end - 1)
    }
}

/// The extension of a file name: what follows its last dot, unless the name
/// has no dot or only the one it begins with.
pub open spec fn name_extension(name: Seq<char>) -> Seq<char> {
    let dot = last_index(name, '.', name.len() as int);
    if dot <= 0 {
        Seq::empty()
    } else {
        name.subrange(dot + 1, name.len() as int)
    }
}

/// The extension of a path: that of its last component; none where the
/// path has no component or ends in `..`.
pub open spec fn extension_text(path: Seq<char>) -> Seq<char> {
    let parts = components(path);
    if parts.len() == 0 || parts.last() == seq!['.', '.'] {
        Seq::empty()
    } else {
        name_extension(parts.last())
    }
}

/// The extension of a path.
pub fn extension_of(path: &str) -> (out: String)
    ensures
        out@ == extension_text(path@),
{
    let parts = split(&chars_of(path));
    if parts.len() == 0 {
        return String::new();
    }
    let name = &parts[parts.len() - 1];
    assert(rows(parts@).last() == name@);
    let climbs = name.len() == 2 && name[0] == '.' && name[1] == '.';
    if climbs {
        assert(name@ =~= seq!['.', '.']);
        return String::new();
    }
    let mut end: usize = name.len();
    while end > 0 && name[end - 1] != '.'
        invariant
            end <= name.len(),
            last_index(name@, '.', name.len() as int) == last_index(name@, '.', end as int),
        decreases end,
    {
        end -= 1;
    }
    if end <= 1 {
        String::new()
    } else {
        string_of(&slice_of(name, end, name.len()))
    }
}

/// Whether files with this extension are ingested: source code in four
/// languages, and plain and marked-up text.
pub open spec fn is_ingestible(extension: Seq<char>) -> bool {
    ||| extension == "rs"@
    ||| extension == "js"@
    ||| extension == "ts"@
    ||| extension == "py"@
    ||| extension == "md"@
    ||| extension == "txt"@
}

fn ingestible(extension: &str) -> (out: bool)
    ensures
        out == is_ingestible(extension@),
{
    str_eq(extension, "rs") || str_eq(extension, "js") || str_eq(extension, "ts") || str_eq(
        extension,
        "py",
    ) || str_eq(extension, "md") || str_eq(extension, "txt")
}

impl Scanner {
    /// Whether a path is scanned at all: it is a file, and its extension, in
    /// lower case, is one of those that are ingested.
    pub fn accepts(path: &str, is_file: bool) -> (out: bool)
        ensures
            out == (is_file && is_ingestible(lowercase(extension_text(path@)))),
    {
        if !is_file {
            return false;
        }
        let extension = to_lowercase(extension_of(path).as_str());
        ingestible(extension.as_str())
    }

    /// Scans one file whose content was read: `None` where the path is not
    /// scanned; else the file with its extension in lower case and the hash
    /// of its content.
    pub fn scan_file(path: &str, is_file: bool, content: &str) -> (out: Option<FileValue>)
        ensures
            match out {
                Some(file) => {
                    &&& is_file
                    &&& is_ingestible(lowercase(extension_text(path@)))
                    &&& file.path@ == path@
                    &&& file.content@ == content@
                    &&& file.extension@ == lowercase(extension_text(path@))
                    &&& file.hash@ == hash_text(content@)
                    &&& file.hash@.len() == 64
                },
                None => !(is_file && is_ingestible(lowercase(extension_text(path@)))),
            },
    {
        if !is_file {
            return None;
        }
        let extension = to_lowercase(extension_of(path).as_str());
        if !ingestible(extension.as_str()) {
            return None;
        }
        Some(
            FileValue {
                path: copy_str(path),
                content: copy_str(content),
                hash: content_hash(content),
                extension,
            },
        )
    }
}

} // verus!
