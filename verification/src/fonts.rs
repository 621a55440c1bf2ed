//! The fonts that come with the application.

use vstd::prelude::*;
use vstd::string::*;

verus! {

/// A font file is known by the end of its path.
pub open spec fn is_font(path: Seq<char>) -> bool {
    ".ttf"@.is_suffix_of(path)
}

/// The font files among the given paths, in their order.
pub open spec fn fonts_among(paths: Seq<String>) -> Seq<String> {
    paths.filter(|path: String| is_font(path@))
}

fn is_font_path(path: &str) -> (font: bool)
    ensures
        font == is_font(path@),
{
    proof {
        reveal_strlit(".ttf");
    }
    let length = path.unicode_len();
    if length < 4 {
        return false;
    }
    let font = path.get_char(length - 4) == '.' && path.get_char(length - 3) == 't'
        && path.get_char(length - 2) == 't' && path.get_char(length - 1) == 'f';
    proof {
        let end = path@.subrange(length - 4, length as int);
        if font {
            assert(end =~= ".ttf"@);
        }
        if end == ".ttf"@ {
            assert(end[0] == '.' && end[1] == 't' && end[2] == 't' && end[3] == 'f');
        }
    }
    font
}

/// Gives the paths of the fonts to load, from those of all font assets.
pub fn load_embedded_fonts(font_paths: Vec<String>) -> (fonts: Vec<String>)
    ensures
        fonts@ == fonts_among(font_paths@),
{
    let mut fonts: Vec<String> = Vec::new();
    let mut next: usize = 0;
    let ghost keep = |path: String| is_font(path@);
    assert(font_paths@.take(0) =~= Seq::empty());
    reveal(Seq::filter);
    while next < font_paths.len()
        invariant
            next <= font_paths.len(),
            keep == (|path: String| is_font(path@)),
            fonts@ == font_paths@.take(next as int).filter(keep),
        decreases font_paths.len() - next,
    {
        reveal(Seq::filter);
        if is_font_path(font_paths[next].as_str()) {
            fonts.push(font_paths[next].clone());
        }
        assert(font_paths@.take(next + 1).drop_last() =~= font_paths@.take(next as int));
        next = next + 1;
    }
    assert(font_paths@.take(next as int) =~= font_paths@);
    fonts
}

/// Whatever stands before it, a path that ends in `.ttf` is that of a font, and every
/// path of a font is made up so.
pub proof fn law_font_is_known_by_its_ending(path: Seq<char>, stem: Seq<char>)
    ensures
        is_font(stem + ".ttf"@),
        is_font(path) <==> path.len() >= 4 && path == path.take(path.len() - 4) + ".ttf"@,
{
    reveal_strlit(".ttf");
    let whole = stem + ".ttf"@;
    assert(whole.subrange(stem.len() as int, whole.len() as int) =~= ".ttf"@);
    if path.len() >= 4 {
        let end = path.subrange(path.len() - 4, path.len() as int);
        assert(path =~= path.take(path.len() - 4) + end);
        if path == path.take(path.len() - 4) + ".ttf"@ {
            assert(end =~= ".ttf"@);
        }
    }
}

/// One more path adds itself to the end of the fonts to load if it ends in `.ttf`,
/// and nothing if it does not; those before it stay as they are.
pub proof fn law_fonts_are_picked_in_order(front: Seq<String>, path: String)
    ensures
        fonts_among(Seq::empty()).len() == 0,
        ".ttf"@.is_suffix_of(path@) ==> fonts_among(front.push(path)) == fonts_among(front).push(
            path,
        ),
        !".ttf"@.is_suffix_of(path@) ==> fonts_among(front.push(path)) == fonts_among(front),
{
    reveal(Seq::filter);
    assert(front.push(path).drop_last() =~= front);
}

} // verus!
