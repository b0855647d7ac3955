use canvas2d::common::{Ratio, Rect, Vec2d};
use canvas2d::graphics::{Font, FontRender, Glyph, GlyphSize, Pages, Quad, Texture};

fn latin() -> Texture {
    Texture::new(1, Vec2d::new(128, 128))
}

fn cyrillic() -> Texture {
    Texture::new(2, Vec2d::new(128, 128))
}

fn render() -> FontRender {
    FontRender::new(Font::standard(latin(), cyrillic()))
}

#[test]
fn text_size_is_the_size_of_the_layout() {
    let render = render();
    assert_eq!(render.text_size(""), Vec2d::new(0, 8));
    assert_eq!(render.text_size("Hi!"), Vec2d::new(18, 8));
    assert_eq!(render.text_size("Hi!\nabcd\n"), Vec2d::new(32, 26));
    assert_eq!(render.font().default_size(), Vec2d::new(8, 8));
}

#[test]
fn quad_binds_the_page_of_the_glyph() {
    let render = render();
    let glyph = Glyph::new(GlyphSize::new(0, 9), 5, 0x41c);
    assert_eq!(
        render.quad(glyph, Vec2d::new(10, 20)),
        Some(Quad {
            texture: cyrillic(),
            rect: Rect { x: 15, y: 20, width: 9, height: 8 },
            st: Rect {
                x: Ratio::new(96, 128),
                y: Ratio::new(1, 16),
                width: Ratio::new(9, 128),
                height: Ratio::new(1, 16),
            },
        })
    );
}

#[test]
fn quad_of_a_glyph_without_page_is_none() {
    let render = render();
    let glyph = Glyph::new(GlyphSize::new(0, 8), 0, 0x100);
    assert_eq!(render.quad(glyph, Vec2d::new(10, 20)), None);
    // Nothing is placed for it, so its offset may lie anywhere.
    let far = Glyph::new(GlyphSize::new(0, 8), i32::MAX, 0x100);
    assert_eq!(render.quad(far, Vec2d::new(i32::MAX, 0)), None);
}

#[test]
fn print_gives_one_quad_for_each_glyph() {
    let quads = render().print("A!", Vec2d::new(100, 50));
    assert_eq!(
        quads,
        vec![
            Quad {
                texture: latin(),
                rect: Rect { x: 100, y: 50, width: 8, height: 8 },
                st: Rect {
                    x: Ratio::new(8, 128),
                    y: Ratio::new(4, 16),
                    width: Ratio::new(8, 128),
                    height: Ratio::new(1, 16),
                },
            },
            Quad {
                texture: latin(),
                rect: Rect { x: 108, y: 50, width: 4, height: 8 },
                st: Rect {
                    x: Ratio::new(10, 128),
                    y: Ratio::new(2, 16),
                    width: Ratio::new(4, 128),
                    height: Ratio::new(1, 16),
                },
            },
        ]
    );
}

#[test]
fn print_leaves_out_glyphs_without_page_but_keeps_their_room() {
    let quads = render().print("a\u{100}\u{44e}", Vec2d::new(0, 0));
    assert_eq!(quads.len(), 2);
    assert_eq!(quads[0].texture, latin());
    assert_eq!(quads[0].rect, Rect { x: 0, y: 0, width: 8, height: 8 });
    assert_eq!(quads[1].texture, cyrillic());
    assert_eq!(quads[1].rect, Rect { x: 16, y: 0, width: 9, height: 8 });
}

#[test]
fn print_gives_no_quad_for_a_line_break() {
    let quads = render().print("a\nb", Vec2d::new(3, 4));
    assert_eq!(quads.len(), 2);
    assert_eq!(quads[0].rect, Rect { x: 3, y: 4, width: 8, height: 8 });
    assert_eq!(quads[1].rect, Rect { x: 3, y: 4, width: 8, height: 8 });
    assert_eq!(render().print("", Vec2d::new(3, 4)), vec![]);
    assert_eq!(render().print("\n\n", Vec2d::new(3, 4)), vec![]);
}

#[test]
fn can_print_where_every_drawn_glyph_can_be_placed() {
    let render = render();
    assert!(render.can_print("ab", Vec2d::new(i32::MAX - 8, 0)));
    assert_eq!(
        render.print("ab", Vec2d::new(i32::MAX - 8, 0))[1].rect,
        Rect { x: i32::MAX, y: 0, width: 8, height: 8 }
    );
    assert!(!render.can_print("ab", Vec2d::new(i32::MAX - 7, 0)));
    assert!(render.can_print("a\nb", Vec2d::new(i32::MAX, i32::MIN)));
    assert!(render.can_print("", Vec2d::new(i32::MAX, i32::MAX)));
}

#[test]
fn can_print_a_glyph_without_page_anywhere() {
    let render = render();
    assert!(render.can_print("a\u{100}", Vec2d::new(i32::MAX - 7, 0)));
    assert_eq!(render.print("a\u{100}", Vec2d::new(i32::MAX - 7, 0)).len(), 1);
    assert!(!render.can_print("a\u{100}b", Vec2d::new(i32::MAX - 7, 0)));
}

#[test]
fn can_print_nothing_that_cannot_be_laid_out() {
    let page = Texture::new(1, Vec2d::new(i32::MAX, 8));
    let font = Font::new((1, 1), 0, 1, Pages::new(page), Default::default());
    let render = FontRender::new(font);
    assert!(render.can_print("a", Vec2d::new(0, 0)));
    assert!(!render.can_print("ab", Vec2d::new(0, 0)));
    assert!(render.can_print("a", Vec2d::new(i32::MAX, 0)));
}
