//! Opens files, directories, and URIs in default applications via the XDG
//! desktop portal.

use ashpd::Error as PortalError;
use ashpd::Uri;
use vstd::prelude::*;

use crate::error::Error;

verus! {

#[verifier::external_type_specification]
#[verifier::external_body]
pub struct ExUri(Uri);

/// Whether the portal accepts `s` as a URI: it is not empty, holds a `:`,
/// and does not start with one.
pub open spec fn is_portal_uri(s: Seq<char>) -> bool {
    s.len() > 0 && s.contains(':') && s[0] != ':'
}

/// The URI that the portal library holds for the text `s` once it accepted
/// it: the source stores a copy of the text and nothing else.
pub uninterp spec fn portal_uri(s: Seq<char>) -> Uri;

/// Parses a URI for the portal (`ashpd::Uri::parse`), turning its parse
/// error into the portal's error type (`ashpd::Error::from`).
///
/// Claims what the source checks: the text is accepted exactly when it is
/// not empty, holds a `:` and does not start with one, and the parsed URI
/// is the one for this text.
#[verifier::external_body]
fn portal_uri_parse(s: &str) -> (r: Result<Uri, PortalError>)
    ensures
        r is Ok <==> is_portal_uri(s@),
        r matches Ok(u) ==> u == portal_uri(s@),
{
    Uri::parse(s).map_err(PortalError::from)
}

/// Parses `s` as the URI that an [`OpenURI`] request sends to the portal.
///
/// Fails with [`Error::Portal`] exactly when `s` is not a portal URI (see
/// [`is_portal_uri`]).
pub fn parse_uri(s: &str) -> (r: Result<Uri, Error>)
    ensures
        r is Ok <==> is_portal_uri(s@),
        r matches Ok(u) ==> u == portal_uri(s@),
        r matches Err(e) ==> e is Portal,
{
    match portal_uri_parse(s) {
        Ok(uri) => Ok(uri),
        Err(e) => Err(Error::Portal(e)),
    }
}

/// Checks `s` the way the portal does before a URI is sent: it must not be
/// empty, must hold a `:` and must not start with one.
pub fn check_uri(s: &str) -> (r: bool)
    ensures
        r == is_portal_uri(s@),
{
    let n = s.unicode_len();
    if n == 0 {
        return false;
    }
    if s.get_char(0) == ':' {
        return false;
    }
    let mut i: usize = 1;
    while i < n
        invariant
            n == s@.len(),
            1 <= i <= n,
            s@[0] != ':',
            forall|j: int| 0 <= j < i ==> s@[j] != ':',
        decreases n - i,
    {
        if s.get_char(i) == ':' {
            assert(s@.contains(':')) by {
                assert(s@[i as int] == ':');
            }
            return true;
        }
        i = i + 1;
    }
    assert(!s@.contains(':'));
    false
}

/// Whether `prefix` starts `s`.
fn str_starts_with(s: &str, prefix: &str) -> (r: bool)
    ensures
        r == prefix@.is_prefix_of(s@),
{
    let n = s.unicode_len();
    let m = prefix.unicode_len();
    if m > n {
        return false;
    }
    let mut i: usize = 0;
    while i < m
        invariant
            n == s@.len(),
            m == prefix@.len(),
            m <= n,
            i <= m,
            forall|j: int| 0 <= j < i ==> prefix@[j] == s@[j],
        decreases m - i,
    {
        if prefix.get_char(i) != s.get_char(i) {
            return false;
        }
        i = i + 1;
    }
    assert(prefix@ =~= s@.subrange(0, m as int));
    true
}

/// The rest of `s` after `prefix`, if `prefix` starts it.
fn str_strip_prefix<'a>(s: &'a str, prefix: &str) -> (r: Option<&'a str>)
    ensures
        r is Some <==> prefix@.is_prefix_of(s@),
        r is Some ==> r->0@ == s@.skip(prefix@.len() as int),
{
    if str_starts_with(s, prefix) {
        let rest = s.substring_char(prefix.unicode_len(), s.unicode_len());
        assert(rest@ =~= s@.skip(prefix@.len() as int));
        Some(rest)
    } else {
        None
    }
}

/// Whether the path names an existing directory
/// (`std::path::Path::is_dir`).
///
/// Nothing is claimed of the result: it depends on the file system.
#[verifier::external_body]
fn path_is_dir(path: &str) -> bool {
    std::path::Path::new(path).is_dir()
}

/// What an [`OpenURI`] request opens.
#[derive(Clone, PartialEq, Eq)]
pub enum OpenTarget {
    /// A web link or custom URI scheme.
    Uri(String),
    /// A local file, opened in its default viewer or editor.
    File(String),
    /// A directory, opened in the default file manager.
    Directory(String),
}

/// The kind and text of a target.
pub enum TargetView {
    /// A URI.
    Uri(Seq<char>),
    /// A file path.
    File(Seq<char>),
    /// A directory path.
    Directory(Seq<char>),
}

/// A portal request to open a file, directory, or URI in its default
/// application.
pub struct OpenURI {
    target: OpenTarget,
    writeable: bool,
    ask: bool,
}

/// Whether `target` is opened as a URI: it starts with `http://`,
/// `https://` or `mailto:`.
pub open spec fn is_link(target: Seq<char>) -> bool {
    "http://"@.is_prefix_of(target) || "https://"@.is_prefix_of(target) || "mailto:"@.is_prefix_of(target)
}

/// The path that `target` names when it is not a link: the text after a
/// leading `file://`, or the whole text.
pub open spec fn local_path(target: Seq<char>) -> Seq<char> {
    if "file://"@.is_prefix_of(target) {
        target.skip("file://"@.len() as int)
    } else {
        target
    }
}

impl OpenURI {
    /// What the request opens.
    pub closed spec fn target(&self) -> TargetView {
        match self.target {
            OpenTarget::Uri(s) => TargetView::Uri(s@),
            OpenTarget::File(s) => TargetView::File(s@),
            OpenTarget::Directory(s) => TargetView::Directory(s@),
        }
    }

    /// Whether the opened file may be written by the application.
    pub closed spec fn is_writeable(&self) -> bool {
        self.writeable
    }

    /// Whether the user is asked which application to use.
    pub closed spec fn asks(&self) -> bool {
        self.ask
    }

    /// Creates a request to open a web link or custom URI scheme (e.g.
    /// `https://example.com`, `mailto:someone@example.com`).
    pub fn uri(uri: &str) -> (r: Self)
        ensures
            r.target() == TargetView::Uri(uri@),
            !r.is_writeable(),
            !r.asks(),
    {
        OpenURI { target: OpenTarget::Uri(uri.to_owned()), writeable: false, ask: false }
    }

    /// Creates a request to open a local file in its default viewer/editor.
    pub fn file(path: &str) -> (r: Self)
        ensures
            r.target() == TargetView::File(path@),
            !r.is_writeable(),
            !r.asks(),
    {
        OpenURI { target: OpenTarget::File(path.to_owned()), writeable: false, ask: false }
    }

    /// Creates a request to open a directory in the default file manager.
    pub fn directory(path: &str) -> (r: Self)
        ensures
            r.target() == TargetView::Directory(path@),
            !r.is_writeable(),
            !r.asks(),
    {
        OpenURI { target: OpenTarget::Directory(path.to_owned()), writeable: false, ask: false }
    }

    /// Creates a request for `target`, given whether its local path names a
    /// directory: a link opens as a URI; otherwise the path after an
    /// optional `file://` opens as a directory or as a file.
    pub fn classify(target: &str, path_is_directory: bool) -> (r: Self)
        ensures
            is_link(target@) ==> r.target() == TargetView::Uri(target@),
            !is_link(target@) && path_is_directory ==> r.target() == TargetView::Directory(local_path(target@)),
            !is_link(target@) && !path_is_directory ==> r.target() == TargetView::File(local_path(target@)),
            !r.is_writeable(),
            !r.asks(),
    {
        if str_starts_with(target, "http://") || str_starts_with(target, "https://") || str_starts_with(target, "mailto:") {
            OpenURI::uri(target)
        } else {
            let path = match str_strip_prefix(target, "file://") {
                Some(rest) => rest,
                None => target,
            };
            if path_is_directory {
                OpenURI::directory(path)
            } else {
                OpenURI::file(path)
            }
        }
    }

    /// Creates a request that detects whether the input is a URI, directory,
    /// or file: a link (`http://`, `https://`, `mailto:`) opens as a URI; a
    /// path (after an optional `file://`) naming an existing directory opens
    /// in the file manager; anything else opens as a file.
    pub fn new(target: &str) -> (r: Self)
        ensures
            is_link(target@) ==> r.target() == TargetView::Uri(target@),
            !is_link(target@) ==> r.target() == TargetView::Directory(local_path(target@))
                || r.target() == TargetView::File(local_path(target@)),
            !r.is_writeable(),
            !r.asks(),
    {
        if str_starts_with(target, "http://") || str_starts_with(target, "https://") || str_starts_with(target, "mailto:") {
            OpenURI::uri(target)
        } else {
            let path = match str_strip_prefix(target, "file://") {
                Some(rest) => rest,
                None => target,
            };
            OpenURI::classify(target, path_is_dir(path))
        }
    }

    /// Requests that the opened file be writeable by the target application.
    ///
    /// Only applies to file targets.
    pub fn writeable(self, writeable: bool) -> (r: Self)
        ensures
            r.target() == self.target(),
            r.is_writeable() == writeable,
            r.asks() == self.asks(),
    {
        OpenURI { writeable, ..self }
    }

    /// Asks the desktop environment to prompt the user for which application
    /// to use.
    pub fn ask(self, ask: bool) -> (r: Self)
        ensures
            r.target() == self.target(),
            r.is_writeable() == self.is_writeable(),
            r.asks() == ask,
    {
        OpenURI { ask, ..self }
    }

    /// Takes the request apart for sending: the target, whether it is
    /// writeable, and whether to ask.
    pub fn into_parts(self) -> (r: (OpenTarget, bool, bool))
        ensures
            r.1 == self.is_writeable(),
            r.2 == self.asks(),
    {
        (self.target, self.writeable, self.ask)
    }
}

} // verus!
