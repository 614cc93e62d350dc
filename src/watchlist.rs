//! The entries of a user's watch list and the client configuration.

use vstd::prelude::*;

verus! {

/// Video resolution of a watched series.
#[derive(PartialEq, Eq, Structural, Clone, Copy, Debug)]
pub enum Quality {
    Res360,
    Res480,
    Res720,
    Res1080,
    Res4k,
}

/// The text form of each quality.
pub open spec fn quality_label(q: Quality) -> Seq<char> {
    match q {
        Quality::Res360 => "360p"@,
        Quality::Res480 => "480p"@,
        Quality::Res720 => "720p"@,
        Quality::Res1080 => "1080p"@,
        Quality::Res4k => "4k"@,
    }
}

/// Whether two strings hold the same characters.
pub fn same_text(a: &str, b: &str) -> (r: bool)
    ensures
        r == (a@ == b@),
{
    let n = a.unicode_len();
    if n != b.unicode_len() {
        return false;
    }
    let mut i: usize = 0;
    while i < n
        invariant
            n == a@.len(),
            n == b@.len(),
            i <= n,
            forall|j: int| 0 <= j < i ==> a@[j] == b@[j],
        decreases n - i,
    {
        if a.get_char(i) != b.get_char(i) {
            return false;
        }
        i += 1;
    }
    assert(a@ =~= b@);
    true
}

impl Quality {
    /// The quality whose text form is `s`, or `Err(())` when there is none.
    pub fn parse(s: &str) -> (r: Result<Quality, ()>)
        ensures
            match r {
                Ok(q) => quality_label(q) == s@,
                Err(()) => forall|q: Quality| quality_label(q) != s@,
            },
    {
        if same_text(s, "360p") {
            Ok(Quality::Res360)
        } else if same_text(s, "480p") {
            Ok(Quality::Res480)
        } else if same_text(s, "720p") {
            Ok(Quality::Res720)
        } else if same_text(s, "1080p") {
            Ok(Quality::Res1080)
        } else if same_text(s, "4k") {
            Ok(Quality::Res4k)
        } else {
            Err(())
        }
    }

    /// The text form: `360p`, `480p`, `720p`, `1080p` or `4k`.
    pub fn label(&self) -> (r: String)
        ensures
            r@ == quality_label(*self),
    {
        match self {
            Quality::Res360 => String::from_str("360p"),
            Quality::Res480 => String::from_str("480p"),
            Quality::Res720 => String::from_str("720p"),
            Quality::Res1080 => String::from_str("1080p"),
            Quality::Res4k => String::from_str("4k"),
        }
    }
}

impl std::str::FromStr for Quality {
    type Err = ();

    fn from_str(s: &str) -> Result<Quality, ()> {
        Quality::parse(s)
    }
}

/// One watched series.
#[derive(Debug)]
pub struct Anime {
    pub title: String,
    pub quality: Quality,
    pub subgroup: String,
    /// The last episode seen, or -1 before the first.
    pub last_seen_episode: i32,
    /// Marks an entry that was removed.
    pub tombstone: bool,
}

/// Client configuration.
#[derive(Debug)]
pub struct Config {
    /// Directory downloads are saved to.
    pub download_path: String,
}

} // verus!
