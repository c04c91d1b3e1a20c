use vstd::prelude::*;

use crate::text::push_char;

verus! {

/// A markdown parser event, reduced to what the note preview reacts to.
#[derive(Debug, Clone, PartialEq, Eq)]
pub enum MdEvent {
    /// A code block opens; the language of a fenced block, empty for an indented one.
    CodeBlockStart(String),
    /// A heading of this level (1 to 6) opens.
    HeadingStart(usize),
    /// A list opens.
    ListStart,
    /// A code block closes.
    CodeBlockEnd,
    /// A heading, a list or a paragraph closes.
    BlockEnd,
    Text(String),
    /// A soft or hard line break.
    Break,
    /// Any other event.
    Other,
}

/// How a piece of a preview line is drawn.
#[derive(Debug, Clone, Copy, PartialEq, Eq, Structural)]
pub enum PieceKind {
    /// The `#` marks before a heading.
    HeadingMarker,
    /// The bullet before a list.
    Bullet,
    Plain,
}

#[derive(Debug, Clone, PartialEq, Eq)]
pub struct Piece {
    pub kind: PieceKind,
    pub text: String,
}

/// One line of the preview, or a whole code block to be highlighted line by line.
#[derive(Debug, Clone, PartialEq, Eq)]
pub enum MdLine {
    Pieces(Vec<Piece>),
    Code { lang: String, code: String },
}

pub enum EventView {
    CodeBlockStart(Seq<char>),
    HeadingStart(nat),
    ListStart,
    CodeBlockEnd,
    BlockEnd,
    Text(Seq<char>),
    Break,
    Other,
}

pub enum LineView {
    Pieces(Seq<(PieceKind, Seq<char>)>),
    Code(Seq<char>, Seq<char>),
}

impl View for MdEvent {
    type V = EventView;

    open spec fn view(&self) -> EventView {
        match self {
            MdEvent::CodeBlockStart(l) => EventView::CodeBlockStart(l@),
            MdEvent::HeadingStart(n) => EventView::HeadingStart(*n as nat),
            MdEvent::ListStart => EventView::ListStart,
            MdEvent::CodeBlockEnd => EventView::CodeBlockEnd,
            MdEvent::BlockEnd => EventView::BlockEnd,
            MdEvent::Text(t) => EventView::Text(t@),
            MdEvent::Break => EventView::Break,
            MdEvent::Other => EventView::Other,
        }
    }
}

impl View for Piece {
    type V = (PieceKind, Seq<char>);

    open spec fn view(&self) -> (PieceKind, Seq<char>) {
        (self.kind, self.text@)
    }
}

pub open spec fn pieces_view(v: Seq<Piece>) -> Seq<(PieceKind, Seq<char>)> {
    v.map_values(|p: Piece| p@)
}

impl View for MdLine {
    type V = LineView;

    open spec fn view(&self) -> LineView {
        match self {
            MdLine::Pieces(v) => LineView::Pieces(pieces_view(v@)),
            MdLine::Code { lang, code } => LineView::Code(lang@, code@),
        }
    }
}

pub open spec fn lines_view(v: Seq<MdLine>) -> Seq<LineView> {
    v.map_values(|l: MdLine| l@)
}

pub open spec fn events_view(v: Seq<MdEvent>) -> Seq<EventView> {
    v.map_values(|e: MdEvent| e@)
}

/// `level` marks `#` and a space.
pub open spec fn heading_marker(level: nat) -> Seq<char> {
    Seq::new(level, |i: int| '#').push(' ')
}

pub open spec fn bullet() -> Seq<char> {
    seq!['\u{2022}', ' ']
}

/// Where the preview stands after some events: the finished lines, the pieces
/// of the line being built, and the code block being gathered.
pub struct FoldState {
    pub lines: Seq<LineView>,
    pub pieces: Seq<(PieceKind, Seq<char>)>,
    pub in_code: bool,
    pub lang: Seq<char>,
    pub code: Seq<char>,
}

pub open spec fn fold_start() -> FoldState {
    FoldState { lines: seq![], pieces: seq![], in_code: false, lang: seq![], code: seq![] }
}

pub open spec fn fold_step(st: FoldState, e: EventView) -> FoldState {
    match e {
        EventView::CodeBlockStart(l) => FoldState { in_code: true, lang: l, ..st },
        EventView::HeadingStart(n) => FoldState {
            pieces: st.pieces.push((PieceKind::HeadingMarker, heading_marker(n))),
            ..st
        },
        EventView::ListStart => FoldState {
            pieces: st.pieces.push((PieceKind::Bullet, bullet())),
            ..st
        },
        EventView::CodeBlockEnd => FoldState {
            lines: st.lines.push(LineView::Code(st.lang, st.code)),
            code: seq![],
            in_code: false,
            ..st
        },
        EventView::BlockEnd => if st.pieces.len() > 0 {
            FoldState { lines: st.lines.push(LineView::Pieces(st.pieces)), pieces: seq![], ..st }
        } else {
            st
        },
        EventView::Text(t) => if st.in_code {
            FoldState { code: st.code + t, ..st }
        } else {
            FoldState { pieces: st.pieces.push((PieceKind::Plain, t)), ..st }
        },
        EventView::Break => if st.in_code {
            FoldState { code: st.code.push('\n'), ..st }
        } else {
            FoldState { lines: st.lines.push(LineView::Pieces(st.pieces)), pieces: seq![], ..st }
        },
        EventView::Other => st,
    }
}

pub open spec fn fold_events(evs: Seq<EventView>) -> FoldState
    decreases evs.len(),
{
    if evs.len() == 0 {
        fold_start()
    } else {
        fold_step(fold_events(evs.drop_last()), evs.last())
    }
}

/// The lines of the preview of a note whose markdown gave the events `evs`.
pub open spec fn rendered_lines(evs: Seq<EventView>) -> Seq<LineView> {
    let st = fold_events(evs);
    if st.pieces.len() > 0 {
        st.lines.push(LineView::Pieces(st.pieces))
    } else {
        st.lines
    }
}

fn heading_marker_text(level: usize) -> (r: String)
    ensures
        r@ == heading_marker(level as nat),
{
    let mut s = String::new();
    let mut i: usize = 0;
    while i < level
        invariant
            i <= level,
            s@ == Seq::new(i as nat, |j: int| '#'),
        decreases level - i,
    {
        push_char(&mut s, '#');
        i += 1;
        assert(s@ =~= Seq::new(i as nat, |j: int| '#'));
    }
    push_char(&mut s, ' ');
    s
}

/// Lays out the preview of a note from its markdown events: headings get their
/// `#` marks, a list its bullet, text is gathered into lines that end at a line
/// break or at the end of a paragraph, heading or list, and each code block is
/// kept whole with its language.
pub fn render_markdown(events: &Vec<MdEvent>) -> (r: Vec<MdLine>)
    ensures
        lines_view(r@) == rendered_lines(events_view(events@)),
{
    let mut lines: Vec<MdLine> = Vec::new();
    let mut pieces: Vec<Piece> = Vec::new();
    let mut in_code = false;
    let mut lang = String::new();
    let mut code = String::new();
    let mut i: usize = 0;
    while i < events.len()
        invariant
            i <= events@.len(),
            ({
                let st = fold_events(events_view(events@.subrange(0, i as int)));
                &&& lines_view(lines@) == st.lines
                &&& pieces_view(pieces@) == st.pieces
                &&& in_code == st.in_code
                &&& lang@ == st.lang
                &&& code@ == st.code
            }),
        decreases events@.len() - i,
    {
        let ghost evs = events_view(events@.subrange(0, i as int));
        assert(events_view(events@.subrange(0, i + 1)).drop_last() =~= evs);
        assert(events_view(events@.subrange(0, i + 1)).last() == events@[i as int]@);
        match &events[i] {
            MdEvent::CodeBlockStart(l) => {
                in_code = true;
                lang = l.clone();
            },
            MdEvent::HeadingStart(n) => {
                let p = Piece { kind: PieceKind::HeadingMarker, text: heading_marker_text(*n) };
                pieces.push(p);
                assert(pieces_view(pieces@) =~= fold_step(fold_events(evs), events@[i as int]@).pieces);
            },
            MdEvent::ListStart => {
                let mut b = String::new();
                push_char(&mut b, '\u{2022}');
                push_char(&mut b, ' ');
                assert(b@ =~= bullet());
                pieces.push(Piece { kind: PieceKind::Bullet, text: b });
                assert(pieces_view(pieces@) =~= fold_step(fold_events(evs), events@[i as int]@).pieces);
            },
            MdEvent::CodeBlockEnd => {
                let block = MdLine::Code { lang: lang.clone(), code };
                lines.push(block);
                code = String::new();
                in_code = false;
                assert(lines_view(lines@) =~= fold_step(fold_events(evs), events@[i as int]@).lines);
            },
            MdEvent::BlockEnd => {
                if pieces.len() > 0 {
                    lines.push(MdLine::Pieces(pieces));
                    pieces = Vec::new();
                    assert(lines_view(lines@) =~= fold_step(fold_events(evs), events@[i as int]@).lines);
                    assert(pieces_view(pieces@) =~= seq![]);
                }
            },
            MdEvent::Text(t) => {
                if in_code {
                    code.append(t.as_str());
                } else {
                    pieces.push(Piece { kind: PieceKind::Plain, text: t.clone() });
                    assert(pieces_view(pieces@) =~= fold_step(fold_events(evs), events@[i as int]@).pieces);
                }
            },
            MdEvent::Break => {
                if in_code {
                    push_char(&mut code, '\n');
                } else {
                    lines.push(MdLine::Pieces(pieces));
                    pieces = Vec::new();
                    assert(lines_view(lines@) =~= fold_step(fold_events(evs), events@[i as int]@).lines);
                    assert(pieces_view(pieces@) =~= seq![]);
                }
            },
            MdEvent::Other => {},
        }
        i += 1;
    }
    assert(events@.subrange(0, i as int) =~= events@);
    if pieces.len() > 0 {
        lines.push(MdLine::Pieces(pieces));
        assert(lines_view(lines@) =~= rendered_lines(events_view(events@)));
    }
    lines
}

} // verus!
