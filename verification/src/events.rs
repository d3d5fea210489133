//! The structural events a manifest document is read as.

use vstd::prelude::*;

verus! {

/// A place in the manifest text: row and column, both counted from zero.
#[derive(Clone, Copy, Debug, PartialEq, Eq, Structural)]
pub struct Position {
    pub row: u64,
    pub column: u64,
}

impl Position {
    /// The beginning of the document.
    pub open spec fn origin() -> Position {
        Position { row: 0, column: 0 }
    }
}

/// One structural event of a document, reduced to what a manifest can hold.
#[derive(Debug, PartialEq, Eq)]
pub enum Event {
    /// The document begins.
    StartDocument,
    /// The document has ended.
    EndDocument,
    /// An element opens; `name` is its local name.
    StartElement { name: String },
    /// The innermost open element closes.
    EndElement,
    /// Text between tags.
    Characters(String),
    /// Anything else a document may hold, such as a processing instruction.
    Other,
}

/// An [`Event`] as a mathematical value.
pub enum EventView {
    StartDocument,
    EndDocument,
    StartElement { name: Seq<char> },
    EndElement,
    Characters(Seq<char>),
    Other,
}

impl View for Event {
    type V = EventView;

    open spec fn view(&self) -> EventView {
        match self {
            Event::StartDocument => EventView::StartDocument,
            Event::EndDocument => EventView::EndDocument,
            Event::StartElement { name } => EventView::StartElement { name: name@ },
            Event::EndElement => EventView::EndElement,
            Event::Characters(text) => EventView::Characters(text@),
            Event::Other => EventView::Other,
        }
    }
}

impl Clone for Event {
    fn clone(&self) -> (copy: Event)
        ensures
            copy@ == self@,
    {
        match self {
            Event::StartDocument => Event::StartDocument,
            Event::EndDocument => Event::EndDocument,
            Event::StartElement { name } => Event::StartElement { name: name.clone() },
            Event::EndElement => Event::EndElement,
            Event::Characters(text) => Event::Characters(text.clone()),
            Event::Other => Event::Other,
        }
    }
}

/// One answer of a reader: an event, or the reader's diagnostic where the
/// markup is ill-formed, and the position the reader reports after it.
#[derive(Debug, PartialEq, Eq)]
pub struct Pulled {
    pub outcome: Result<Event, String>,
    pub position: Position,
}

/// A [`Pulled`] as a mathematical value.
pub struct Pull {
    pub outcome: Result<EventView, Seq<char>>,
    pub position: Position,
}

impl Pull {
    /// Whether the reader has nothing new to say after this answer: the
    /// document has ended, or the markup is ill-formed.
    pub open spec fn is_last(self) -> bool {
        self.outcome is Err || self.outcome == Ok::<EventView, Seq<char>>(EventView::EndDocument)
    }
}

/// What a reader gave as a mathematical value.
pub open spec fn outcome_view(outcome: Result<Event, String>) -> Result<EventView, Seq<char>> {
    match outcome {
        Ok(event) => Ok(event@),
        Err(diagnostic) => Err(diagnostic@),
    }
}

impl View for Pulled {
    type V = Pull;

    open spec fn view(&self) -> Pull {
        Pull { outcome: outcome_view(self.outcome), position: self.position }
    }
}

impl Clone for Pulled {
    fn clone(&self) -> (copy: Pulled)
        ensures
            copy@ == self@,
    {
        let outcome = match &self.outcome {
            Ok(event) => Ok(event.clone()),
            Err(diagnostic) => Err(diagnostic.clone()),
        };
        Pulled { outcome, position: self.position }
    }
}

/// The answers in `pulls` as mathematical values.
pub open spec fn pulls_view(pulls: Seq<Pulled>) -> Seq<Pull> {
    pulls.map_values(|pulled: Pulled| pulled@)
}

} // verus!
