//! File chooser requests and the paths they answer with.

use ashpd::desktop::file_chooser::FileFilter;
use vstd::prelude::*;
use vstd::string::StringSliceAdditionalSpecFns;

use crate::text::{hex_digit_value, hex_pair_value, parse_hex_pair};

verus! {

#[verifier::external_type_specification]
#[verifier::external_body]
pub struct ExFileFilter(FileFilter);

/// The bytes that percent-encoded `bytes` stand for: every `%` must be
/// followed by two characters that [`hex_pair_value`] accepts.
pub open spec fn percent_decode(bytes: Seq<u8>) -> Option<Seq<u8>>
    decreases bytes.len(),
{
    if bytes.len() == 0 {
        Some(Seq::empty())
    } else if bytes[0] == 0x25 {
        if bytes.len() < 3 {
            None
        } else {
            match hex_pair_value(bytes[1], bytes[2]) {
                Some(v) => match percent_decode(bytes.skip(3)) {
                    Some(rest) => Some(seq![v] + rest),
                    None => None,
                },
                None => None,
            }
        }
    } else {
        match percent_decode(bytes.skip(1)) {
            Some(rest) => Some(seq![bytes[0]] + rest),
            None => None,
        }
    }
}

/// Bytes outside a percent escape are copied unchanged: bytes without any
/// `%` decode to themselves.
pub proof fn plain_bytes_decode_to_themselves(bytes: Seq<u8>)
    requires
        !bytes.contains(0x25u8),
    ensures
        percent_decode(bytes) == Some(bytes),
    decreases bytes.len(),
{
    if bytes.len() > 0 {
        assert(bytes[0] != 0x25u8) by {
            if bytes[0] == 0x25u8 {
                assert(bytes.contains(0x25u8));
            }
        }
        let tail = bytes.skip(1);
        assert(!tail.contains(0x25u8)) by {
            if tail.contains(0x25u8) {
                let k = choose|k: int| 0 <= k < tail.len() && tail[k] == 0x25u8;
                assert(bytes[k + 1] == 0x25u8);
            }
        }
        plain_bytes_decode_to_themselves(tail);
        assert(seq![bytes[0]] + tail =~= bytes);
    }
}

/// A `%` followed by two hexadecimal digits stands for the byte they spell,
/// high digit first, and decoding goes on after them.
pub proof fn escapes_decode_to_their_byte(h1: u8, h2: u8, rest: Seq<u8>)
    requires
        hex_digit_value(h1) is Some,
        hex_digit_value(h2) is Some,
    ensures
        percent_decode(seq![0x25u8, h1, h2] + rest) == match percent_decode(rest) {
            Some(r) => Some(seq![(hex_digit_value(h1)->0 * 16 + hex_digit_value(h2)->0) as u8] + r),
            None => None::<Seq<u8>>,
        },
{
    let bytes = seq![0x25u8, h1, h2] + rest;
    assert(bytes[0] == 0x25u8);
    assert(bytes[1] == h1);
    assert(bytes[2] == h2);
    assert(bytes.skip(3) =~= rest);
}

/// A `%` that is not followed by two characters ending in a hexadecimal
/// digit makes the whole text undecodable.
pub proof fn malformed_escapes_fail(h1: u8, h2: u8, rest: Seq<u8>)
    ensures
        percent_decode(seq![0x25u8]) is None,
        percent_decode(seq![0x25u8, h1]) is None,
        hex_digit_value(h2) is None ==> percent_decode(seq![0x25u8, h1, h2] + rest) is None,
{
    let bytes = seq![0x25u8, h1, h2] + rest;
    assert(bytes[0] == 0x25u8);
    assert(bytes[1] == h1);
    assert(bytes[2] == h2);
    assert(seq![0x25u8][0] == 0x25u8);
    assert(seq![0x25u8, h1][0] == 0x25u8);
}

/// The path of a `file://` URI without escapes is the rest of the URI after
/// `file://`, byte for byte.
pub proof fn plain_file_uris_name_their_rest(path: Seq<u8>)
    requires
        !path.contains(0x25u8),
    ensures
        file_uri_path(file_scheme() + path) == Some(path),
{
    let uri = file_scheme() + path;
    assert(uri.subrange(0, 7) =~= file_scheme());
    assert(uri.skip(7) =~= path);
    plain_bytes_decode_to_themselves(path);
}

/// The bytes of `file://`.
pub open spec fn file_scheme() -> Seq<u8> {
    seq![0x66u8, 0x69u8, 0x6cu8, 0x65u8, 0x3au8, 0x2fu8, 0x2fu8]
}

/// The path that a `file://` URI names, as bytes: the percent-decoded rest
/// of the URI; nothing for another scheme or a malformed escape.
pub open spec fn file_uri_path(uri: Seq<u8>) -> Option<Seq<u8>> {
    if uri.len() >= 7 && uri.subrange(0, 7) == file_scheme() {
        percent_decode(uri.skip(7))
    } else {
        None
    }
}

/// Decodes the bytes from index `start` on, percent escapes included.
fn percent_decode_from(bytes: &[u8], start: usize) -> (r: Option<Vec<u8>>)
    requires
        start <= bytes@.len(),
    ensures
        match r {
            Some(v) => percent_decode(bytes@.skip(start as int)) == Some(v@),
            None => percent_decode(bytes@.skip(start as int)) is None,
        },
{
    let mut out: Vec<u8> = Vec::new();
    let mut i = start;
    let n = bytes.len();
    while i < n
        invariant
            n == bytes@.len(),
            start <= i <= n,
            percent_decode(bytes@.skip(start as int)) == match percent_decode(bytes@.skip(i as int)) {
                Some(rest) => Some(out@ + rest),
                None => None,
            },
        decreases n - i,
    {
        let ghost rest = bytes@.skip(i as int);
        let b = bytes[i];
        if b == 0x25 {
            if n - i < 3 {
                return None;
            }
            match parse_hex_pair(bytes[i + 1], bytes[i + 2]) {
                Some(v) => {
                    assert(rest.skip(3) =~= bytes@.skip(i + 3));
                    proof {
                        let tail = percent_decode(bytes@.skip(i + 3));
                        if tail is Some {
                            assert(out@ + (seq![v] + tail->0) =~= out@.push(v) + tail->0);
                        }
                    }
                    out.push(v);
                    i = i + 3;
                },
                None => {
                    return None;
                },
            }
        } else {
            assert(rest.skip(1) =~= bytes@.skip(i + 1));
            proof {
                let tail = percent_decode(bytes@.skip(i + 1));
                if tail is Some {
                    assert(out@ + (seq![b] + tail->0) =~= out@.push(b) + tail->0);
                }
            }
            out.push(b);
            i = i + 1;
        }
    }
    assert(bytes@.skip(n as int) =~= Seq::<u8>::empty());
    assert(out@ + Seq::<u8>::empty() =~= out@);
    Some(out)
}

/// Converts a `file://` URI into the bytes of the path it names.
///
/// Returns `None` when the URI has another scheme or a `%` is not followed
/// by two hexadecimal digits (a `+` may stand for the first).
pub fn uri_to_path(uri: &str) -> (r: Option<Vec<u8>>)
    ensures
        match r {
            Some(p) => file_uri_path(uri.spec_bytes()) == Some(p@),
            None => file_uri_path(uri.spec_bytes()) is None,
        },
{
    let bytes = uri.as_bytes();
    if bytes.len() >= 7 && bytes[0] == 0x66 && bytes[1] == 0x69 && bytes[2] == 0x6c && bytes[3] == 0x65
        && bytes[4] == 0x3a && bytes[5] == 0x2f && bytes[6] == 0x2f {
        assert(bytes@.subrange(0, 7) =~= file_scheme());
        percent_decode_from(bytes, 7)
    } else {
        assert(!(bytes@.len() >= 7 && bytes@.subrange(0, 7) == file_scheme())) by {
            if bytes@.len() >= 7 && bytes@.subrange(0, 7) == file_scheme() {
                assert(bytes@.subrange(0, 7)[0] == bytes@[0]);
                assert(bytes@.subrange(0, 7)[1] == bytes@[1]);
                assert(bytes@.subrange(0, 7)[2] == bytes@[2]);
                assert(bytes@.subrange(0, 7)[3] == bytes@[3]);
                assert(bytes@.subrange(0, 7)[4] == bytes@[4]);
                assert(bytes@.subrange(0, 7)[5] == bytes@[5]);
                assert(bytes@.subrange(0, 7)[6] == bytes@[6]);
            }
        }
        None
    }
}

/// The paths that the `file://` URIs among `uris` name, in order; a URI of
/// another scheme, or with a malformed escape, is left out.
pub open spec fn uri_paths(uris: Seq<Seq<u8>>) -> Seq<Seq<u8>>
    decreases uris.len(),
{
    if uris.len() == 0 {
        Seq::empty()
    } else {
        let rest = uri_paths(uris.drop_last());
        match file_uri_path(uris.last()) {
            Some(p) => rest.push(p),
            None => rest,
        }
    }
}

/// The bytes of each string.
pub open spec fn uri_bytes(uris: Seq<String>) -> Seq<Seq<u8>> {
    uris.map_values(|u: String| vstd::utf8::encode_utf8(u@))
}

/// The paths that a file chooser's answer names: each `file://` URI
/// converted by [`uri_to_path`], the others left out.
pub fn paths_from_uris(uris: &Vec<String>) -> (r: Vec<Vec<u8>>)
    ensures
        r@.map_values(|p: Vec<u8>| p@) == uri_paths(uri_bytes(uris@)),
{
    let mut out: Vec<Vec<u8>> = Vec::new();
    let mut i: usize = 0;
    while i < uris.len()
        invariant
            i <= uris@.len(),
            out@.map_values(|p: Vec<u8>| p@) == uri_paths(uri_bytes(uris@.take(i as int))),
        decreases uris@.len() - i,
    {
        let ghost before = out@;
        let u = uris[i].as_str();
        assert(uri_bytes(uris@.take(i + 1)).drop_last() =~= uri_bytes(uris@.take(i as int)));
        assert(uri_bytes(uris@.take(i + 1)).last() == vstd::utf8::encode_utf8(uris@[i as int]@));
        match uri_to_path(u) {
            Some(p) => {
                out.push(p);
                assert(out@.map_values(|p: Vec<u8>| p@) =~= before.map_values(|p: Vec<u8>| p@).push(p@));
            },
            None => {},
        }
        i = i + 1;
    }
    assert(uris@.take(uris@.len() as int) =~= uris@);
    out
}

/// The options of an open-file request.
pub struct OpenFileView {
    pub title: Option<Seq<char>>,
    pub accept_label: Option<Seq<char>>,
    pub multiple: bool,
    pub directory: bool,
    pub filters: Seq<FileFilter>,
}

/// The text of an optional string.
pub open spec fn opt_view(s: Option<String>) -> Option<Seq<char>> {
    match s {
        Some(t) => Some(t@),
        None => None,
    }
}

/// Request to open one or more files or folders via the desktop portal.
pub struct OpenFile {
    title: Option<String>,
    accept_label: Option<String>,
    multiple: bool,
    dir: bool,
    filters: Vec<FileFilter>,
}

impl View for OpenFile {
    type V = OpenFileView;

    closed spec fn view(&self) -> OpenFileView {
        OpenFileView {
            title: opt_view(self.title),
            accept_label: opt_view(self.accept_label),
            multiple: self.multiple,
            directory: self.dir,
            filters: self.filters@,
        }
    }
}

impl OpenFile {
    /// Creates a default open-file dialog request: no title or label, one
    /// file, no filter.
    pub fn new() -> (r: Self)
        ensures
            r@ == (OpenFileView { title: None, accept_label: None, multiple: false, directory: false, filters: Seq::empty() }),
    {
        let r = OpenFile { title: None, accept_label: None, multiple: false, dir: false, filters: Vec::new() };
        assert(r@.filters =~= Seq::<FileFilter>::empty());
        r
    }

    /// Sets the window title of the file chooser dialog.
    pub fn title(self, title: &str) -> (r: Self)
        ensures
            r@ == (OpenFileView { title: Some(title@), ..self@ }),
    {
        OpenFile { title: Some(title.to_owned()), ..self }
    }

    /// Sets the label for the accept button (e.g. "Select", "Open").
    pub fn accept_label(self, label: &str) -> (r: Self)
        ensures
            r@ == (OpenFileView { accept_label: Some(label@), ..self@ }),
    {
        OpenFile { accept_label: Some(label.to_owned()), ..self }
    }

    /// Allows the user to select multiple files.
    pub fn multiple(self, multiple: bool) -> (r: Self)
        ensures
            r@ == (OpenFileView { multiple, ..self@ }),
    {
        OpenFile { multiple, ..self }
    }

    /// Allows the user to select folders instead of files.
    pub fn directory(self, directory: bool) -> (r: Self)
        ensures
            r@ == (OpenFileView { directory, ..self@ }),
    {
        OpenFile { dir: directory, ..self }
    }

    /// Adds a filter for selectable files.
    pub fn filter(self, filter: FileFilter) -> (r: Self)
        ensures
            r@ == (OpenFileView { filters: self@.filters.push(filter), ..self@ }),
    {
        let mut filters = self.filters;
        filters.push(filter);
        OpenFile { filters, ..self }
    }

    /// Takes the request apart for sending: title, accept label, whether
    /// several may be chosen, whether folders are chosen, and the filters.
    pub fn into_parts(self) -> (r: (Option<String>, Option<String>, bool, bool, Vec<FileFilter>))
        ensures
            opt_view(r.0) == self@.title,
            opt_view(r.1) == self@.accept_label,
            r.2 == self@.multiple,
            r.3 == self@.directory,
            r.4@ == self@.filters,
    {
        (self.title, self.accept_label, self.multiple, self.dir, self.filters)
    }
}

impl Default for OpenFile {
    fn default() -> (r: Self)
        ensures
            r@ == (OpenFileView { title: None, accept_label: None, multiple: false, directory: false, filters: Seq::empty() }),
    {
        OpenFile::new()
    }
}

/// The options of a save-file request.
pub struct SaveFileView {
    pub title: Option<Seq<char>>,
    pub accept_label: Option<Seq<char>>,
    pub current_name: Option<Seq<char>>,
    pub filters: Seq<FileFilter>,
}

/// Request to save a file via the desktop portal.
pub struct SaveFile {
    title: Option<String>,
    accept_label: Option<String>,
    current_name: Option<String>,
    filters: Vec<FileFilter>,
}

impl View for SaveFile {
    type V = SaveFileView;

    closed spec fn view(&self) -> SaveFileView {
        SaveFileView {
            title: opt_view(self.title),
            accept_label: opt_view(self.accept_label),
            current_name: opt_view(self.current_name),
            filters: self.filters@,
        }
    }
}

impl SaveFile {
    /// Creates a default save-file dialog request: no title, label,
    /// suggested name or filter.
    pub fn new() -> (r: Self)
        ensures
            r@ == (SaveFileView { title: None, accept_label: None, current_name: None, filters: Seq::empty() }),
    {
        let r = SaveFile { title: None, accept_label: None, current_name: None, filters: Vec::new() };
        assert(r@.filters =~= Seq::<FileFilter>::empty());
        r
    }

    /// Sets the window title of the save dialog.
    pub fn title(self, title: &str) -> (r: Self)
        ensures
            r@ == (SaveFileView { title: Some(title@), ..self@ }),
    {
        SaveFile { title: Some(title.to_owned()), ..self }
    }

    /// Sets the label for the accept button (e.g. "Save").
    pub fn accept_label(self, label: &str) -> (r: Self)
        ensures
            r@ == (SaveFileView { accept_label: Some(label@), ..self@ }),
    {
        SaveFile { accept_label: Some(label.to_owned()), ..self }
    }

    /// Sets the suggested file name for saving.
    pub fn current_name(self, name: &str) -> (r: Self)
        ensures
            r@ == (SaveFileView { current_name: Some(name@), ..self@ }),
    {
        SaveFile { current_name: Some(name.to_owned()), ..self }
    }

    /// Adds a filter for selectable file types.
    pub fn filter(self, filter: FileFilter) -> (r: Self)
        ensures
            r@ == (SaveFileView { filters: self@.filters.push(filter), ..self@ }),
    {
        let mut filters = self.filters;
        filters.push(filter);
        SaveFile { filters, ..self }
    }

    /// Takes the request apart for sending: title, accept label, suggested
    /// name, and the filters.
    pub fn into_parts(self) -> (r: (Option<String>, Option<String>, Option<String>, Vec<FileFilter>))
        ensures
            opt_view(r.0) == self@.title,
            opt_view(r.1) == self@.accept_label,
            opt_view(r.2) == self@.current_name,
            r.3@ == self@.filters,
    {
        (self.title, self.accept_label, self.current_name, self.filters)
    }
}

impl Default for SaveFile {
    fn default() -> (r: Self)
        ensures
            r@ == (SaveFileView { title: None, accept_label: None, current_name: None, filters: Seq::empty() }),
    {
        SaveFile::new()
    }
}

} // verus!
