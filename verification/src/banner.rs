//! The banner: the display text in block letters, put together line by line
//! from the glyphs of the standard FIGlet font.

use figlet_rs::FIGfont;
use vstd::prelude::*;

verus! {

/// The block-letter form of one character: its rows, top to bottom, and the
/// height that the font gives for it.
#[derive(Debug)]
pub struct Glyph {
    pub height: u32,
    pub rows: Vec<String>,
}

/// The mathematical model of a `Glyph`.
pub struct GlyphView {
    pub height: u32,
    pub rows: Seq<Seq<char>>,
}

impl DeepView for Glyph {
    type V = GlyphView;

    open spec fn deep_view(&self) -> GlyphView {
        GlyphView { height: self.height, rows: self.rows.deep_view() }
    }
}

/// The glyphs that the standard font has for the characters of `text`, in the
/// order of the text, or `None` where the font has none to give.
pub uninterp spec fn standard_glyphs(text: Seq<char>) -> Option<Seq<GlyphView>>;

/// Looks up the glyphs of `text` in the standard font.
///
/// Trusted: the body calls `FIGfont::standard` and `FIGfont::convert` of
/// figlet-rs and copies, for each character of the figure, its height and its
/// rows. The font is compiled into that crate, so the result depends on the
/// text alone; nothing else is claimed of it. It is `None` where the font
/// cannot be read or `convert` returns nothing.
#[verifier::external_body]
fn lookup_glyphs(text: &str) -> (glyphs: Option<Vec<Glyph>>)
    ensures
        glyphs.deep_view() == standard_glyphs(text@),
{
    let font = FIGfont::standard().ok()?;
    let figure = font.convert(text)?;
    Some(
        figure.characters.iter().map(
            |c| Glyph { height: c.height, rows: c.characters.clone() },
        ).collect(),
    )
}

/// The number of lines of a banner: the height of its first glyph, and zero
/// for no glyphs.
pub open spec fn banner_height(glyphs: Seq<GlyphView>) -> nat {
    if glyphs.len() > 0 {
        glyphs[0].height as nat
    } else {
        0
    }
}

/// Every glyph has at least `height` rows.
pub open spec fn glyphs_cover(glyphs: Seq<GlyphView>, height: nat) -> bool {
    forall|j: int| 0 <= j < glyphs.len() ==> (#[trigger] glyphs[j]).rows.len() >= height
}

/// Line `line_no` of the banner: row `line_no` of each glyph, first glyph
/// leftmost.
pub open spec fn banner_line(glyphs: Seq<GlyphView>, line_no: int) -> Seq<char>
    decreases glyphs.len(),
{
    if glyphs.len() == 0 {
        Seq::empty()
    } else {
        banner_line(glyphs.drop_last(), line_no) + glyphs.last().rows[line_no]
    }
}

/// The lines of the banner that `glyphs` make, top to bottom. There is none
/// where a glyph has fewer rows than the banner has lines.
pub open spec fn banner_spec(glyphs: Seq<GlyphView>) -> Option<Seq<Seq<char>>> {
    if glyphs_cover(glyphs, banner_height(glyphs)) {
        Some(Seq::new(banner_height(glyphs), |i: int| banner_line(glyphs, i)))
    } else {
        None
    }
}

/// The banner of `text` in the standard font.
pub open spec fn content_spec(text: Seq<char>) -> Option<Seq<Seq<char>>> {
    match standard_glyphs(text) {
        Some(glyphs) => banner_spec(glyphs),
        None => None,
    }
}

/// Puts the rows of the glyphs together into the lines of a banner. Returns
/// `None` exactly if some glyph has fewer rows than the first glyph's height
/// asks for.
pub fn assemble_banner(glyphs: &Vec<Glyph>) -> (content: Option<Vec<String>>)
    ensures
        content.deep_view() == banner_spec(glyphs.deep_view()),
{
    let ghost model = glyphs.deep_view();
    let letter_count: usize = glyphs.len();
    let mut text_height: usize = 0;
    if letter_count > 0 {
        text_height = glyphs[0].height as usize;
    }
    assert(text_height == banner_height(model));
    let mut checked: usize = 0;
    while checked < letter_count
        invariant
            checked <= letter_count,
            letter_count == glyphs@.len(),
            model == glyphs.deep_view(),
            text_height == banner_height(model),
            forall|j: int| 0 <= j < checked ==> (#[trigger] model[j]).rows.len() >= text_height,
        decreases letter_count - checked,
    {
        if glyphs[checked].rows.len() < text_height {
            assert(model[checked as int].rows.len() < text_height);
            return None;
        }
        checked += 1;
    }
    let mut content: Vec<String> = Vec::new();
    let mut line_no: usize = 0;
    while line_no < text_height
        invariant
            line_no <= text_height,
            letter_count == glyphs@.len(),
            model == glyphs.deep_view(),
            glyphs_cover(model, text_height as nat),
            content@.len() == line_no,
            forall|i: int| 0 <= i < line_no ==> (#[trigger] content@[i])@ == banner_line(model, i),
        decreases text_height - line_no,
    {
        let mut line = String::new();
        let mut letter_no: usize = 0;
        while letter_no < letter_count
            invariant
                letter_no <= letter_count,
                line_no < text_height,
                letter_count == glyphs@.len(),
                model == glyphs.deep_view(),
                glyphs_cover(model, text_height as nat),
                line@ == banner_line(model.subrange(0, letter_no as int), line_no as int),
            decreases letter_count - letter_no,
        {
            let glyph = &glyphs[letter_no];
            assert(model[letter_no as int].rows.len() >= text_height);
            line.append(glyph.rows[line_no].as_str());
            proof {
                let grown = model.subrange(0, letter_no + 1);
                assert(grown.drop_last() == model.subrange(0, letter_no as int));
                assert(grown.last().rows[line_no as int] == glyph.rows@[line_no as int]@);
            }
            letter_no += 1;
        }
        assert(model.subrange(0, letter_count as int) == model);
        content.push(line);
        line_no += 1;
    }
    assert(content.deep_view() == Seq::new(
        banner_height(model),
        |i: int| banner_line(model, i),
    ));
    Some(content)
}

/// Renders `text` as a banner in the standard font, one string for each line.
/// Returns `None` where the font gives no glyphs for the text, or glyphs that
/// make no banner.
pub fn generate_content(text: &str) -> (content: Option<Vec<String>>)
    ensures
        content.deep_view() == content_spec(text@),
{
    match lookup_glyphs(text) {
        Some(glyphs) => assemble_banner(&glyphs),
        None => None,
    }
}

} // verus!
