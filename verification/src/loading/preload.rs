//! Which loader a preloaded asset goes through, by its file extension.

use vstd::prelude::*;

verus! {

/// The loader of a preloaded asset.
#[derive(Clone, Copy, Debug, PartialEq, Eq, Structural)]
pub enum PreloadKind {
    /// `.png`: an image.
    Image,
    /// `.ogg`: a sound.
    Audio,
    /// `.ttf`: a font.
    Font,
    /// `.ron`: a data file's raw bytes.
    RonBytes,
}

/// `s` ends with `suffix`.
pub open spec fn ends_with(s: Seq<char>, suffix: Seq<char>) -> bool {
    suffix.len() <= s.len() && s.subrange(s.len() - suffix.len(), s.len() as int) == suffix
}

/// The loader for a path, by the text after its last `.`; `None` for other
/// extensions and for paths without a `.`.
pub open spec fn preload_kind_of(path: Seq<char>) -> Option<PreloadKind> {
    if ends_with(path, ".png"@) {
        Some(PreloadKind::Image)
    } else if ends_with(path, ".ogg"@) {
        Some(PreloadKind::Audio)
    } else if ends_with(path, ".ttf"@) {
        Some(PreloadKind::Font)
    } else if ends_with(path, ".ron"@) {
        Some(PreloadKind::RonBytes)
    } else {
        None
    }
}

/// The characters of a string slice.
pub(crate) fn chars_of(s: &str) -> (r: Vec<char>)
    ensures
        r@ == s@,
{
    let mut out: Vec<char> = Vec::new();
    for c in it: s.chars()
        invariant
            it.seq() == s@,
            out@ == s@.take(it.index() as int),
    {
        proof {
            assert(s@.take(it.index() + 1) =~= s@.take(it.index() as int).push(c));
        }
        out.push(c);
    }
    assert(out@ =~= s@);
    out
}

/// `chars` ends with the four characters `.`, `a`, `b`, `c`.
fn ends_with_ext(chars: &Vec<char>, a: char, b: char, c: char) -> (r: bool)
    ensures
        r == ends_with(chars@, seq!['.', a, b, c]),
{
    let n = chars.len();
    if n < 4 {
        return false;
    }
    let r = chars[n - 4] == '.' && chars[n - 3] == a && chars[n - 2] == b && chars[n - 1] == c;
    proof {
        let tail = chars@.subrange(n - 4, n as int);
        if r {
            assert(tail =~= seq!['.', a, b, c]);
        } else if tail == seq!['.', a, b, c] {
            assert(tail[0] == chars@[n - 4]);
            assert(tail[1] == chars@[n - 3]);
            assert(tail[2] == chars@[n - 2]);
            assert(tail[3] == chars@[n - 1]);
        }
    }
    r
}

/// The loader for an asset path (see [`preload_kind_of`]).
pub fn preload_kind(path: &str) -> (r: Option<PreloadKind>)
    ensures
        r == preload_kind_of(path@),
{
    proof {
        reveal_strlit(".png");
        reveal_strlit(".ogg");
        reveal_strlit(".ttf");
        reveal_strlit(".ron");
        assert(".png"@ =~= seq!['.', 'p', 'n', 'g']);
        assert(".ogg"@ =~= seq!['.', 'o', 'g', 'g']);
        assert(".ttf"@ =~= seq!['.', 't', 't', 'f']);
        assert(".ron"@ =~= seq!['.', 'r', 'o', 'n']);
    }
    let chars = chars_of(path);
    if ends_with_ext(&chars, 'p', 'n', 'g') {
        Some(PreloadKind::Image)
    } else if ends_with_ext(&chars, 'o', 'g', 'g') {
        Some(PreloadKind::Audio)
    } else if ends_with_ext(&chars, 't', 't', 'f') {
        Some(PreloadKind::Font)
    } else if ends_with_ext(&chars, 'r', 'o', 'n') {
        Some(PreloadKind::RonBytes)
    } else {
        None
    }
}

} // verus!
