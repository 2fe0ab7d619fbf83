//! Log entries for a terminal: a coloured tag, the message, and a line end.
//!
//! The logger writes nothing itself. It collects what is to be written, as
//! runs of text with their colour, for the program to put on its terminal.

use vstd::prelude::*;

verus! {

/// The colours of the tags.
#[derive(Clone, Copy, Debug, PartialEq, Eq, Structural)]
pub enum Color {
    Red,
    Blue,
    Yellow,
}

/// A run of text in one colour; without a colour it is written in the
/// colour that the terminal is in.
#[derive(Debug, PartialEq, Eq)]
pub struct Piece {
    pub color: Option<Color>,
    pub text: String,
}

/// A `Piece` as a mathematical value.
pub struct PieceView {
    pub color: Option<Color>,
    pub text: Seq<char>,
}

impl View for Piece {
    type V = PieceView;

    open spec fn view(&self) -> PieceView {
        PieceView { color: self.color, text: self.text@ }
    }
}

/// Collects log entries until the program takes them to write them out.
#[derive(Debug, PartialEq, Eq)]
pub struct Logger {
    pieces: Vec<Piece>,
}

impl View for Logger {
    type V = Seq<PieceView>;

    closed spec fn view(&self) -> Seq<PieceView> {
        self.pieces@.map_values(|piece: Piece| piece@)
    }
}

/// One log entry: the tag in its colour, then the message and the end of
/// the line in the colour of the terminal.
pub open spec fn entry(color: Color, tag: Seq<char>, message: Seq<char>) -> Seq<PieceView> {
    seq![
        PieceView { color: Some(color), text: tag },
        PieceView { color: None, text: message },
        PieceView { color: None, text: seq!['\n'] },
    ]
}

impl Logger {
    /// A logger that holds nothing.
    pub fn new() -> (logger: Logger)
        ensures
            logger@ == Seq::<PieceView>::empty(),
    {
        let logger = Logger { pieces: Vec::new() };
        assert(logger@ =~= Seq::<PieceView>::empty());
        logger
    }

    /// Adds one run of text.
    fn write(&mut self, color: Option<Color>, s: &str)
        ensures
            final(self)@ == old(self)@.push(PieceView { color, text: s@ }),
    {
        self.pieces.push(Piece { color, text: s.to_owned() });
        assert(self@ =~= old(self)@.push(PieceView { color, text: s@ }));
    }

    /// Adds `s` in the given colour; what follows is in the colour of the
    /// terminal again.
    fn with_color(&mut self, color: Color, s: &str)
        ensures
            final(self)@ == old(self)@.push(PieceView { color: Some(color), text: s@ }),
    {
        self.write(Some(color), s);
    }

    /// Adds one entry: `tag` in `color`, the message, the end of the line.
    fn log(&mut self, color: Color, tag: &str, s: &str)
        ensures
            final(self)@ == old(self)@ + entry(color, tag@, s@),
    {
        proof {
            reveal_strlit("\n");
        }
        self.with_color(color, tag);
        self.write(None, s);
        self.write(None, "\n");
        assert("\n"@ =~= seq!['\n']);
        assert(self@ =~= old(self)@ + entry(color, tag@, s@));
    }

    /// Logs `s` for debugging, under a red `[DEBUG]`.
    pub fn debug(&mut self, s: &str)
        ensures
            final(self)@ == old(self)@ + entry(Color::Red, "[DEBUG]"@, s@),
    {
        self.log(Color::Red, "[DEBUG]", s);
    }

    /// Logs `s` as information, under a blue `[*]`.
    pub fn info(&mut self, s: &str)
        ensures
            final(self)@ == old(self)@ + entry(Color::Blue, "[*]"@, s@),
    {
        self.log(Color::Blue, "[*]", s);
    }

    /// Logs `s` as a warning, under a yellow `[x]`.
    pub fn warn(&mut self, s: &str)
        ensures
            final(self)@ == old(self)@ + entry(Color::Yellow, "[x]"@, s@),
    {
        self.log(Color::Yellow, "[x]", s);
    }

    /// Hands out what was collected, oldest first, and leaves the logger
    /// holding nothing.
    pub fn take(&mut self) -> (pieces: Vec<Piece>)
        ensures
            pieces@.map_values(|piece: Piece| piece@) == old(self)@,
            final(self)@ == Seq::<PieceView>::empty(),
    {
        let mut pieces: Vec<Piece> = Vec::new();
        pieces.append(&mut self.pieces);
        assert(pieces@ =~= old(self).pieces@);
        assert(self@ =~= Seq::<PieceView>::empty());
        pieces
    }
}

} // verus!
