use std::collections::HashMap;

use canvas2d::common::{Ratio, Rect, Vec2d};
use canvas2d::graphics::font::standard_glyph_widths;
use canvas2d::graphics::{Char, Font, Glyph, GlyphSize, Pages, Texture};

fn latin() -> Texture {
    Texture::new(1, Vec2d::new(128, 128))
}

fn cyrillic() -> Texture {
    Texture::new(2, Vec2d::new(128, 128))
}

fn standard() -> Font {
    Font::standard(latin(), cyrillic())
}

fn print(left_offset: i32, width: i32, delta_x: i32, ch: char) -> Char {
    Char::Print(Glyph::new(GlyphSize::new(left_offset, width), delta_x, ch as u32))
}

#[test]
fn glyph_size_new_keeps_both_numbers() {
    let size = GlyphSize::new(-1, 9);
    assert_eq!(size.left_offset, -1);
    assert_eq!(size.width, 9);
}

#[test]
fn font_cell_size_follows_from_the_first_page() {
    let font = standard();
    assert_eq!(font.default_size(), Vec2d::new(8, 8));
    assert_eq!(font.new_line_height(), 9);

    let pages = Pages::new(Texture::new(7, Vec2d::new(100, 50)));
    let uneven = Font::new((16, 8), 0, 3, pages, HashMap::new());
    assert_eq!(uneven.default_size(), Vec2d::new(6, 6));
    assert_eq!(uneven.new_line_height(), 9);
}

#[test]
fn font_new_takes_a_vector_as_grid() {
    let pages = Pages::new(Texture::new(7, Vec2d::new(64, 32)));
    let font = Font::new(Vec2d::new(4, 2), 0, 0, pages, HashMap::new());
    assert_eq!(font.default_size(), Vec2d::new(16, 16));
    assert_eq!(font.atlas_cell(7), Vec2d::new(3, 1));
    assert_eq!(font.atlas_cell(8), Vec2d::new(0, 0));
}

#[test]
fn layout_of_empty_text_is_one_cell_high_and_empty() {
    let glyphs = standard().glyphs("", Vec::new(), false);
    assert_eq!(glyphs.chars, vec![]);
    assert_eq!(glyphs.size, Vec2d::new(0, 8));
}

#[test]
fn layout_places_each_glyph_behind_the_one_before() {
    let glyphs = standard().glyphs("Hi!", Vec::new(), false);
    assert_eq!(
        glyphs.chars,
        vec![print(0, 8, 0, 'H'), print(0, 6, 8, 'i'), print(2, 4, 14, '!')]
    );
    assert_eq!(glyphs.size, Vec2d::new(18, 8));
    assert_eq!(glyphs.size(), Vec2d::new(18, 8));
    assert_eq!(glyphs.chars().len(), 3);
}

#[test]
fn layout_without_line_break_is_one_cell_high() {
    let font = standard();
    for text in ["a", "Hello, world!", "mmmmWWWW", "\u{41c}\u{44e}", " \t "] {
        assert_eq!(font.glyphs(text, Vec::new(), false).size.y, 8);
        assert_eq!(font.glyphs(text, Vec::new(), true).size.y, 8);
    }
}

#[test]
fn layout_monospaced_moves_by_one_cell_and_the_indent() {
    let pages = Pages::new(latin());
    let font = Font::new((16, 16), 3, 1, pages, standard_glyph_widths());
    let glyphs = font.glyphs("i!m\nW.", Vec::new(), true);
    assert_eq!(
        glyphs.chars,
        vec![
            print(0, 8, 0, 'i'),
            print(0, 8, 11, '!'),
            print(0, 8, 22, 'm'),
            Char::NewLine,
            print(0, 8, 0, 'W'),
            print(0, 8, 11, '.'),
        ]
    );
    assert_eq!(glyphs.size, Vec2d::new(33, 8 + 9));
}

#[test]
fn layout_proportional_uses_the_listed_widths_and_the_indent() {
    let pages = Pages::new(latin());
    let font = Font::new((16, 16), 3, 1, pages, standard_glyph_widths());
    let glyphs = font.glyphs("i!m", Vec::new(), false);
    assert_eq!(
        glyphs.chars,
        vec![print(0, 6, 0, 'i'), print(2, 4, 9, '!'), print(-1, 9, 16, 'm')]
    );
    assert_eq!(glyphs.size, Vec2d::new(28, 8));
}

#[test]
fn layout_line_break_starts_a_new_line() {
    let glyphs = standard().glyphs("ab\nc", Vec::new(), false);
    assert_eq!(
        glyphs.chars,
        vec![print(0, 8, 0, 'a'), print(0, 8, 8, 'b'), Char::NewLine, print(0, 8, 0, 'c')]
    );
    assert_eq!(glyphs.size, Vec2d::new(16, 17));
}

#[test]
fn layout_is_as_wide_as_its_widest_line() {
    let font = standard();
    assert_eq!(font.glyphs("a\nabc\nab", Vec::new(), false).size, Vec2d::new(24, 26));
    assert_eq!(font.glyphs("abc\n", Vec::new(), false).size, Vec2d::new(24, 17));
    assert_eq!(font.glyphs("\n\n", Vec::new(), false).size, Vec2d::new(0, 26));
    assert_eq!(
        font.glyphs("\n\n", Vec::new(), false).chars,
        vec![Char::NewLine, Char::NewLine]
    );
}

#[test]
fn layout_knows_the_wide_cyrillic_letters() {
    let glyphs = standard().glyphs("\u{41c}\u{438}\u{440}", Vec::new(), false);
    assert_eq!(
        glyphs.chars,
        vec![
            print(0, 9, 0, '\u{41c}'),
            print(0, 8, 9, '\u{438}'),
            print(0, 8, 17, '\u{440}'),
        ]
    );
    assert_eq!(glyphs.size, Vec2d::new(25, 8));
}

#[test]
fn layout_goes_behind_what_the_buffer_holds() {
    let buf = vec![Char::NewLine, print(0, 1, 2, 'x')];
    let glyphs = standard().glyphs("a", buf, false);
    assert_eq!(
        glyphs.chars,
        vec![Char::NewLine, print(0, 1, 2, 'x'), print(0, 8, 0, 'a')]
    );
    assert_eq!(glyphs.size, Vec2d::new(8, 8));
}

#[test]
fn layout_with_negative_advance_is_never_narrower_than_nothing() {
    let mut widths = HashMap::new();
    widths.insert('a' as u32, GlyphSize::new(0, -5));
    let font = Font::new((16, 16), 0, 1, Pages::new(latin()), widths);
    let glyphs = font.glyphs("ab", Vec::new(), false);
    assert_eq!(glyphs.chars, vec![print(0, -5, 0, 'a'), print(0, 8, -5, 'b')]);
    assert_eq!(glyphs.size, Vec2d::new(3, 8));
    assert_eq!(font.glyphs("a", Vec::new(), false).size, Vec2d::new(0, 8));
}

#[test]
fn atlas_cell_of_the_second_cell_of_the_second_row() {
    let font = standard();
    assert_eq!(font.atlas_cell(17), Vec2d::new(1, 1));
    let st = font.st_map(Glyph::new(GlyphSize::new(0, 8), 0, 17));
    assert_eq!(st.x, Ratio::new(8, 128));
    assert_eq!(st.y, Ratio::new(1, 16));
    assert_eq!(st.x.numer as f32 / st.x.denom as f32, 1.0 / 16.0);
    assert_eq!(st.y.numer as f32 / st.y.denom as f32, 1.0 / 16.0);
}

#[test]
fn atlas_cell_lies_inside_the_grid() {
    let font = Font::new((5, 3), 0, 0, Pages::new(latin()), HashMap::new());
    let mut codes: Vec<u32> = (0..1000).collect();
    codes.extend([0x41c, 0xffff, 0x10ffff, i32::MAX as u32, u32::MAX - 1, u32::MAX]);
    for code in codes {
        let cell = font.atlas_cell(code);
        assert!(0 <= cell.x && cell.x < 5, "column of {}", code);
        assert!(0 <= cell.y && cell.y < 3, "row of {}", code);
        assert_eq!((cell.y * 5 + cell.x) as u32, code % 15);
    }
}

#[test]
fn atlas_cell_counts_within_the_page() {
    let font = standard();
    assert_eq!(font.atlas_cell(0), Vec2d::new(0, 0));
    assert_eq!(font.atlas_cell(15), Vec2d::new(15, 0));
    assert_eq!(font.atlas_cell(16), Vec2d::new(0, 1));
    assert_eq!(font.atlas_cell(255), Vec2d::new(15, 15));
    assert_eq!(font.atlas_cell(256), Vec2d::new(0, 0));
    assert_eq!(font.atlas_cell(0x41c), Vec2d::new(12, 1));
}

#[test]
fn st_map_gives_exact_fractions_of_the_page() {
    let font = standard();
    let st = font.st_map(Glyph::new(GlyphSize::new(2, 4), 14, '!' as u32));
    assert_eq!(
        st,
        Rect {
            x: Ratio::new(10, 128),
            y: Ratio::new(2, 16),
            width: Ratio::new(4, 128),
            height: Ratio::new(1, 16),
        }
    );
    let shifted = font.st_map(Glyph::new(GlyphSize::new(-1, 9), 0, 'm' as u32));
    assert_eq!(
        shifted,
        Rect {
            x: Ratio::new(13 * 8 - 1, 128),
            y: Ratio::new(6, 16),
            width: Ratio::new(9, 128),
            height: Ratio::new(1, 16),
        }
    );
}

#[test]
fn st_map_of_a_font_with_large_numbers() {
    let page = Texture::new(1, Vec2d::new(i32::MAX, i32::MAX));
    let font = Font::new((1, i32::MAX), 0, 0, Pages::new(page), HashMap::new());
    assert_eq!(font.default_size(), Vec2d::new(i32::MAX, 1));
    let st = font.st_map(Glyph::new(GlyphSize::new(i32::MIN, i32::MIN), 0, u32::MAX));
    assert_eq!(st.x, Ratio::new(i32::MIN as i64, i32::MAX as i64));
    assert_eq!(st.y, Ratio::new((u32::MAX % (i32::MAX as u32)) as i64, i32::MAX as i64));
    assert_eq!(st.width, Ratio::new(i32::MIN as i64, i32::MAX as i64));
    assert_eq!(st.height, Ratio::new(1, i32::MAX as i64));
}

#[test]
fn placing_moves_the_glyph_behind_the_start_of_the_line() {
    let font = standard();
    let glyph = Glyph::new(GlyphSize::new(2, 4), 14, '!' as u32);
    assert_eq!(
        font.placing(glyph, Vec2d::new(100, 50)),
        Rect { x: 114, y: 50, width: 4, height: 8 }
    );
    assert_eq!(
        font.placing(glyph, Vec2d::new(-14, -50)),
        Rect { x: 0, y: -50, width: 4, height: 8 }
    );
}

#[test]
fn page_is_found_by_the_code_divided_by_the_glyphs_on_a_page() {
    let font = standard();
    assert_eq!(font.page(0), Some(&latin()));
    assert_eq!(font.page(255), Some(&latin()));
    assert_eq!(font.page(0x400), Some(&cyrillic()));
    assert_eq!(font.page(0x4ff), Some(&cyrillic()));
}

#[test]
fn page_is_missing_in_a_gap_and_behind_the_last_page() {
    let font = standard();
    assert_eq!(font.page(256), None);
    assert_eq!(font.page(0x3ff), None);
    assert_eq!(font.page(0x500), None);
    assert_eq!(font.page(i32::MAX as u32 + 1), None);
    assert_eq!(font.page(u32::MAX), None);
}

#[test]
fn page_without_gaps_is_missing_from_the_number_of_pages_on() {
    let mut pages = Pages::new(Texture::new(10, Vec2d::new(40, 40)));
    pages.add(Texture::new(11, Vec2d::new(40, 40)), 1);
    pages.add(Texture::new(12, Vec2d::new(40, 40)), 2);
    let font = Font::new((2, 2), 0, 0, pages, HashMap::new());
    for code in 0..40u32 {
        let page = font.page(code);
        assert_eq!(page.is_none(), code / 4 >= 3, "page of {}", code);
        if let Some(texture) = page {
            assert_eq!(texture.id, 10 + code / 4);
        }
    }
}

#[test]
fn standard_widths_list_the_odd_glyphs() {
    let widths = standard_glyph_widths();
    assert_eq!(widths.len(), 20);
    for ch in ['!', ':', ';', '.', ',', '|'] {
        assert_eq!(widths[&(ch as u32)], GlyphSize::new(2, 4));
    }
    for ch in ['`', 'i', 'j', 'l'] {
        assert_eq!(widths[&(ch as u32)], GlyphSize::new(0, 6));
    }
    for ch in ['M', 'W', 'w', '\u{41c}', '\u{43c}', '\u{42b}', '\u{44b}', '\u{42e}', '\u{44e}'] {
        assert_eq!(widths[&(ch as u32)], GlyphSize::new(0, 9));
    }
    assert_eq!(widths[&('m' as u32)], GlyphSize::new(-1, 9));
    assert_eq!(widths.get(&('a' as u32)), None);
}

#[test]
fn pages_keep_gaps_between_them() {
    let mut pages = Pages::new('a');
    assert_eq!(pages.first(), &'a');
    assert_eq!(pages.get(0), Some(&'a'));
    assert_eq!(pages.get(1), None);
    pages.add('e', 4);
    assert_eq!(pages.get(0), Some(&'a'));
    assert_eq!(pages.get(1), None);
    assert_eq!(pages.get(3), None);
    assert_eq!(pages.get(4), Some(&'e'));
    assert_eq!(pages.get(5), None);
    assert_eq!(pages.get(usize::MAX), None);
    pages.add('c', 2);
    assert_eq!(pages.get(2), Some(&'c'));
    assert_eq!(pages.get(4), Some(&'e'));
}

#[test]
fn pages_add_replaces_a_page() {
    let mut pages = Pages::new('a');
    pages.add('b', 1);
    pages.add('z', 0);
    pages.add('y', 1);
    assert_eq!(pages.first(), &'z');
    assert_eq!(pages.get(0), Some(&'z'));
    assert_eq!(pages.get(1), Some(&'y'));
    assert_eq!(pages.get(2), None);
}

#[test]
fn can_layout_ordinary_text() {
    let font = standard();
    assert!(font.can_layout("", false));
    assert!(font.can_layout("Hello, world!\nSecond line\n", false));
    assert!(font.can_layout("Hello, world!\nSecond line\n", true));
}

#[test]
fn can_layout_until_the_pen_leaves_the_range() {
    let page = Texture::new(1, Vec2d::new(i32::MAX, 8));
    let font = Font::new((1, 1), 0, 1, Pages::new(page), HashMap::new());
    assert_eq!(font.default_size(), Vec2d::new(i32::MAX, 8));
    assert!(font.can_layout("a", false));
    assert_eq!(font.glyphs("a", Vec::new(), false).size, Vec2d::new(i32::MAX, 8));
    assert!(!font.can_layout("ab", false));
    assert!(!font.can_layout("ab", true));
    // Each line starts anew.
    assert!(font.can_layout("a\nb\nc", false));
    assert_eq!(font.glyphs("a\nb\nc", Vec::new(), false).size, Vec2d::new(i32::MAX, 26));
}

#[test]
fn can_layout_until_an_advance_leaves_the_range() {
    let page = Texture::new(1, Vec2d::new(i32::MAX, 8));
    let mut widths = HashMap::new();
    widths.insert('n' as u32, GlyphSize::new(0, -1));
    widths.insert('z' as u32, GlyphSize::new(0, 0));
    let font = Font::new((1, 1), 1, 1, Pages::new(page), widths);
    assert!(!font.can_layout("a", false));
    assert!(font.can_layout("nnzz", false));
    assert!(!font.can_layout("nnzz", true));
    assert_eq!(font.glyphs("nnzz", Vec::new(), false).size, Vec2d::new(2, 8));
}

#[test]
fn can_layout_until_the_height_leaves_the_range() {
    let tall = Font::new((16, 16), 0, i32::MAX, Pages::new(latin()), HashMap::new());
    assert!(tall.can_layout("abc", false));
    assert!(!tall.can_layout("a\nb", false));

    let half = Font::new((16, 16), 0, (1 << 30) - 8, Pages::new(latin()), HashMap::new());
    assert_eq!(half.new_line_height(), 1 << 30);
    assert!(half.can_layout("\n", false));
    assert_eq!(half.glyphs("\n", Vec::new(), false).size, Vec2d::new(0, (1 << 30) + 8));
    assert!(!half.can_layout("\n\n", false));

    let down = Font::new((16, 16), 0, -(1 << 30) - 8, Pages::new(latin()), HashMap::new());
    assert!(down.can_layout("\n\n", false));
    assert_eq!(down.glyphs("\n\n", Vec::new(), false).size, Vec2d::new(0, -2147483640));
    assert!(!down.can_layout("\n\n\n", false));

    let flat = Font::new((16, 16), 0, -8, Pages::new(latin()), HashMap::new());
    assert!(flat.can_layout("\n\n\n\n", false));
    assert_eq!(flat.glyphs("\n\n\n\n", Vec::new(), false).size, Vec2d::new(0, 8));
}
