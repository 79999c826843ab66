//! The compression backends and the names they go by.

use crate::text::{lowercased, text_eq, to_lowercase};
use vstd::prelude::*;

verus! {

/// An external compression tool.
#[derive(Clone, Copy, Debug, PartialEq, Eq, Structural)]
pub enum Backend {
    Zstd,
    Xz,
    SevenZip,
    Zpaq,
    Paq8px,
}

/// The algorithm of a request that names none.
pub open spec fn default_algorithm() -> Seq<char> {
    "zstd"@
}

impl Backend {
    /// The backend that goes by the normalized name `name`. 7-Zip has three
    /// names; the others have one each.
    pub open spec fn named(name: Seq<char>) -> Option<Backend> {
        if name == "zstd"@ {
            Some(Backend::Zstd)
        } else if name == "xz"@ {
            Some(Backend::Xz)
        } else if name == "7z"@ || name == "7zip"@ || name == "sevenzip"@ {
            Some(Backend::SevenZip)
        } else if name == "zpaq"@ {
            Some(Backend::Zpaq)
        } else if name == "paq8px"@ {
            Some(Backend::Paq8px)
        } else {
            None
        }
    }

    /// The backend that a request for `requested` is routed to: the one that
    /// goes by the lower-case form of `requested`.
    pub open spec fn selected(requested: Seq<char>) -> Option<Backend> {
        Backend::named(lowercased(requested))
    }

    /// What the names of the files that this backend writes end in.
    pub open spec fn extension_text(self) -> Seq<char> {
        match self {
            Backend::Zstd => "zst"@,
            Backend::Xz => "xz"@,
            Backend::SevenZip => "7z"@,
            Backend::Zpaq => "zpaq"@,
            Backend::Paq8px => "paq8px"@,
        }
    }

    /// The backend that goes by the normalized name `name`.
    pub fn from_name(name: &str) -> (r: Option<Backend>)
        ensures
            r == Backend::named(name@),
    {
        if text_eq(name, "zstd") {
            Some(Backend::Zstd)
        } else if text_eq(name, "xz") {
            Some(Backend::Xz)
        } else if text_eq(name, "7z") || text_eq(name, "7zip") || text_eq(name, "sevenzip") {
            Some(Backend::SevenZip)
        } else if text_eq(name, "zpaq") {
            Some(Backend::Zpaq)
        } else if text_eq(name, "paq8px") {
            Some(Backend::Paq8px)
        } else {
            None
        }
    }

    /// The backend that a request for `requested` is routed to, whatever the
    /// case of its letters.
    pub fn select(requested: &str) -> (r: Option<Backend>)
        ensures
            r == Backend::selected(requested@),
    {
        let name = to_lowercase(requested);
        Backend::from_name(name.as_str())
    }

    /// What the names of the files that this backend writes end in.
    pub fn extension(&self) -> (r: &'static str)
        ensures
            r@ == self.extension_text(),
    {
        match self {
            Backend::Zstd => "zst",
            Backend::Xz => "xz",
            Backend::SevenZip => "7z",
            Backend::Zpaq => "zpaq",
            Backend::Paq8px => "paq8px",
        }
    }
}

/// The normalized name of the algorithm of a request: the lower-case form of
/// the name it gives, or the default if it gives none.
pub open spec fn normalized_algorithm(algorithm: Option<Seq<char>>) -> Seq<char> {
    match algorithm {
        Some(name) => lowercased(name),
        None => default_algorithm(),
    }
}

/// The normalized name of the algorithm of a request.
pub fn normalize_algorithm(algorithm: &Option<String>) -> (r: String)
    ensures
        r@ == normalized_algorithm(
            match *algorithm {
                Some(name) => Some(name@),
                None => None,
            },
        ),
{
    match algorithm {
        Some(name) => to_lowercase(name.as_str()),
        None => "zstd".to_owned(),
    }
}

/// Two requests whose names differ only in what lower-casing removes are
/// routed alike.
pub proof fn law_selection_ignores_case(a: Seq<char>, b: Seq<char>)
    requires
        lowercased(a) == lowercased(b),
    ensures
        Backend::selected(a) == Backend::selected(b),
{
}

/// A request that names no algorithm is routed to zstd.
pub proof fn law_default_is_zstd()
    ensures
        Backend::named(normalized_algorithm(None)) == Some(Backend::Zstd),
{
}

/// The three names of 7-Zip are routed to one backend.
pub proof fn law_seven_zip_aliases()
    ensures
        Backend::named("7z"@) == Some(Backend::SevenZip),
        Backend::named("7zip"@) == Some(Backend::SevenZip),
        Backend::named("sevenzip"@) == Some(Backend::SevenZip),
{
    reveal_strlit("7z");
    reveal_strlit("7zip");
    reveal_strlit("sevenzip");
    reveal_strlit("zstd");
    reveal_strlit("xz");
    assert("zstd"@[0] == 'z');
    assert("xz"@[0] == 'x');
}

} // verus!
