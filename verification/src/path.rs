//! Paths as the shell holds them: the bytes of a POSIX path.

use vstd::prelude::*;
use vstd::utf8::*;

verus! {

/// The byte that separates the components of a path, `/`.
pub const SEPARATOR: u8 = 0x2f;

/// A path is absolute when it starts at the root.
pub open spec fn is_absolute(path: Seq<u8>) -> bool {
    path.len() > 0 && path[0] == SEPARATOR
}

/// `path` as seen from `base`: an absolute path stands for itself, any other
/// is appended to `base`, behind a separator where `base` does not end in one.
pub open spec fn join(base: Seq<u8>, path: Seq<u8>) -> Seq<u8> {
    if is_absolute(path) {
        path
    } else if base.len() == 0 || base.last() == SEPARATOR {
        base + path
    } else {
        base + seq![SEPARATOR] + path
    }
}

/// What `FromUtf8Error` of the standard library prints for `bytes` that are
/// not UTF-8: a description of where and why decoding stopped.
pub uninterp spec fn utf8_error_text(bytes: Seq<u8>) -> Seq<char>;

/// Calls `String::from_utf8`, and `to_string` on the error it gives. The
/// contract claims that the call succeeds exactly on valid UTF-8, that the
/// text is then the decoding of the bytes, and that the description of a
/// failure depends on the bytes alone.
#[verifier::external_body]
pub(crate) fn decode_text(bytes: Vec<u8>) -> (decoded: Result<String, String>)
    ensures
        decoded is Ok <==> valid_utf8(bytes@),
        decoded matches Ok(text) ==> text@ == decode_utf8(bytes@),
        decoded matches Err(cause) ==> cause@ == utf8_error_text(bytes@),
{
    match String::from_utf8(bytes) {
        Ok(text) => Ok(text),
        Err(e) => Err(e.to_string()),
    }
}

/// A path, held as its bytes. Nothing is required of them: a path need not
/// be text, and need not name anything that exists.
#[derive(Debug, PartialEq, Eq)]
pub struct ShellPath {
    bytes: Vec<u8>,
}

impl View for ShellPath {
    type V = Seq<u8>;

    closed spec fn view(&self) -> Seq<u8> {
        self.bytes@
    }
}

impl Clone for ShellPath {
    fn clone(&self) -> (copy: Self)
        ensures
            copy@ == self@,
    {
        let bytes = self.bytes.clone();
        assert(bytes@ =~= self.bytes@);
        ShellPath { bytes }
    }
}

impl ShellPath {
    /// The path with the given bytes.
    pub fn from_bytes(bytes: Vec<u8>) -> (path: Self)
        ensures
            path@ == bytes@,
    {
        ShellPath { bytes }
    }

    /// The path that a text names: its UTF-8 encoding.
    pub fn from_text(text: &str) -> (path: Self)
        ensures
            path@ == encode_utf8(text@),
    {
        ShellPath { bytes: text.as_bytes_vec() }
    }

    /// The bytes of the path.
    pub fn as_bytes(&self) -> (bytes: &Vec<u8>)
        ensures
            bytes@ == self@,
    {
        &self.bytes
    }

    /// The bytes of the path, giving the path up.
    pub fn into_bytes(self) -> (bytes: Vec<u8>)
        ensures
            bytes@ == self@,
    {
        self.bytes
    }

    /// Whether the path starts at the root.
    pub fn is_absolute(&self) -> (absolute: bool)
        ensures
            absolute == is_absolute(self@),
    {
        self.bytes.len() > 0 && self.bytes[0] == SEPARATOR
    }

    /// `path` as seen from this path.
    pub fn join(&self, path: &ShellPath) -> (joined: Self)
        ensures
            joined@ == join(self@, path@),
    {
        if path.is_absolute() {
            return path.clone();
        }
        let mut bytes = self.bytes.clone();
        assert(bytes@ =~= self.bytes@);
        let n = bytes.len();
        if n > 0 && bytes[n - 1] != SEPARATOR {
            bytes.push(SEPARATOR);
        }
        let ghost head = bytes@;
        bytes.extend_from_slice(path.bytes.as_slice());
        assert(bytes@ =~= head + path.bytes@);
        ShellPath { bytes }
    }

    /// The path as text, where its bytes are UTF-8.
    pub fn to_text(&self) -> (text: Option<String>)
        ensures
            text is Some <==> valid_utf8(self@),
            text matches Some(t) ==> t@ == decode_utf8(self@),
    {
        let bytes = self.bytes.clone();
        assert(bytes@ =~= self.bytes@);
        match decode_text(bytes) {
            Ok(t) => Some(t),
            Err(_) => None,
        }
    }
}

} // verus!
