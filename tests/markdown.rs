use notemancy::markdown::{render_markdown, MdEvent, MdLine, Piece, PieceKind};

fn plain(t: &str) -> Piece {
    Piece { kind: PieceKind::Plain, text: t.to_string() }
}

fn text(t: &str) -> MdEvent {
    MdEvent::Text(t.to_string())
}

#[test]
fn empty_note_has_no_lines() {
    assert_eq!(render_markdown(&vec![]), vec![]);
}

#[test]
fn heading_gets_its_marks() {
    let events = vec![MdEvent::HeadingStart(2), text("Title"), MdEvent::BlockEnd];
    let marker = Piece { kind: PieceKind::HeadingMarker, text: "## ".to_string() };
    assert_eq!(render_markdown(&events), vec![MdLine::Pieces(vec![marker, plain("Title")])]);
}

#[test]
fn list_gets_one_bullet() {
    let events = vec![
        MdEvent::ListStart,
        MdEvent::Other,
        text("one"),
        MdEvent::Other,
        MdEvent::Other,
        text("two"),
        MdEvent::Other,
        MdEvent::BlockEnd,
    ];
    let bullet = Piece { kind: PieceKind::Bullet, text: "\u{2022} ".to_string() };
    assert_eq!(
        render_markdown(&events),
        vec![MdLine::Pieces(vec![bullet, plain("one"), plain("two")])]
    );
}

#[test]
fn breaks_end_lines_and_paragraphs_end_lines() {
    let events = vec![
        MdEvent::Other,
        text("a"),
        MdEvent::Break,
        text("b"),
        MdEvent::BlockEnd,
        MdEvent::BlockEnd,
        text("tail"),
    ];
    assert_eq!(
        render_markdown(&events),
        vec![
            MdLine::Pieces(vec![plain("a")]),
            MdLine::Pieces(vec![plain("b")]),
            MdLine::Pieces(vec![plain("tail")]),
        ]
    );
}

#[test]
fn a_break_on_an_empty_line_gives_an_empty_line() {
    let events = vec![MdEvent::Break, text("x"), MdEvent::BlockEnd];
    assert_eq!(
        render_markdown(&events),
        vec![MdLine::Pieces(vec![]), MdLine::Pieces(vec![plain("x")])]
    );
}

#[test]
fn code_block_is_kept_whole_with_its_language() {
    let events = vec![
        MdEvent::CodeBlockStart("rust".to_string()),
        text("fn main() {}"),
        MdEvent::Break,
        text("// end"),
        MdEvent::CodeBlockEnd,
        text("after"),
        MdEvent::BlockEnd,
    ];
    assert_eq!(
        render_markdown(&events),
        vec![
            MdLine::Code { lang: "rust".to_string(), code: "fn main() {}\n// end".to_string() },
            MdLine::Pieces(vec![plain("after")]),
        ]
    );
}
