//! The manifest parser: a state machine over the events of a document.
//!
//! A manifest is one `gresources` element holding `gresource` sections, each
//! holding `file` leaves whose text is a path. The machine walks the events
//! of a document in order, collects the paths, and stops at the first event
//! that a manifest cannot hold.

use vstd::prelude::*;
use crate::events::{pulls_view, Event, EventView, Position, Pull, Pulled};
use crate::reader::{document_pulls, next_event, open_reader, position, upcoming, ReaderOptions};

verus! {

/// Name of the element that holds the whole manifest.
pub const CONTAINER: &'static str = "gresources";

/// Name of the element that holds one group of files.
pub const SECTION: &'static str = "gresource";

/// Name of the element whose text is the path of one file.
pub const LEAF: &'static str = "file";

/// Where the parser stands in the document.
#[derive(Clone, Copy, Debug, PartialEq, Eq, Structural)]
pub enum State {
    /// Nothing read yet: the start of the document is expected.
    Start,
    /// Inside the document, before the container.
    Document,
    /// Inside the container, between sections.
    Container,
    /// Inside a section, between leaves.
    Section,
    /// Inside a leaf, reading its text.
    Leaf,
    /// After the container, before the end of the document.
    Closed,
    /// The document has ended; the manifest is complete.
    Finished,
}

/// Why a document is not a manifest.
#[derive(Clone, Debug, PartialEq, Eq)]
pub enum Failure {
    /// An element opened where no element of that name may stand.
    UnexpectedElement { name: String },
    /// Text appeared outside a leaf.
    UnexpectedData,
    /// An event appeared that a manifest has no place for.
    MalformedXml,
    /// The document ended while the manifest was still open.
    UnexpectedEof,
    /// A leaf closed without having held any text.
    MissingData,
}

/// A [`Failure`] as a mathematical value.
pub enum FailureView {
    UnexpectedElement { name: Seq<char> },
    UnexpectedData,
    MalformedXml,
    UnexpectedEof,
    MissingData,
}

impl View for Failure {
    type V = FailureView;

    open spec fn view(&self) -> FailureView {
        match self {
            Failure::UnexpectedElement { name } => FailureView::UnexpectedElement { name: name@ },
            Failure::UnexpectedData => FailureView::UnexpectedData,
            Failure::MalformedXml => FailureView::MalformedXml,
            Failure::UnexpectedEof => FailureView::UnexpectedEof,
            Failure::MissingData => FailureView::MissingData,
        }
    }
}

/// The parser between two events.
#[derive(Clone, Debug, PartialEq, Eq)]
pub struct Parser {
    /// Where in the document the parser stands.
    pub state: State,
    /// The text seen so far in the leaf that is open, if any.
    pub text: Option<String>,
    /// The paths collected so far, in document order.
    pub names: Vec<String>,
}

/// A [`Parser`] as a mathematical value.
pub struct ParserView {
    pub state: State,
    pub text: Option<Seq<char>>,
    pub names: Seq<Seq<char>>,
}

/// The texts of a list of strings.
pub open spec fn texts(names: Seq<String>) -> Seq<Seq<char>> {
    names.map_values(|name: String| name@)
}

impl View for Parser {
    type V = ParserView;

    open spec fn view(&self) -> ParserView {
        ParserView {
            state: self.state,
            text: match self.text {
                Some(text) => Some(text@),
                None => None,
            },
            names: texts(self.names@),
        }
    }
}

/// Whether every one of `names` has at least one character.
pub open spec fn no_name_empty(names: Seq<Seq<char>>) -> bool {
    forall|i: int| 0 <= i < names.len() ==> (#[trigger] names[i]).len() > 0
}

impl ParserView {
    /// Whether reading can come to this parser: every path collected has
    /// text in it, and text is held inside a leaf only.
    pub open spec fn well_formed(self) -> bool {
        no_name_empty(self.names) && (self.state != State::Leaf ==> self.text is None)
    }

    /// The parser before the first event.
    pub open spec fn initial() -> ParserView {
        ParserView { state: State::Start, text: None, names: Seq::empty() }
    }

    /// This parser moved to `state`.
    pub open spec fn at(self, state: State) -> ParserView {
        ParserView { state, ..self }
    }
}

/// What an event does outside the container: before it opens and after it
/// has closed.
pub open spec fn document_step(parser: ParserView, event: EventView) -> Result<
    ParserView,
    FailureView,
> {
    match event {
        EventView::StartDocument => if parser.state == State::Start {
            Ok(parser.at(State::Document))
        } else {
            Ok(parser)
        },
        EventView::EndDocument => if parser.state == State::Closed {
            Ok(parser.at(State::Finished))
        } else {
            Err(FailureView::UnexpectedEof)
        },
        EventView::StartElement { name } => if name == CONTAINER@ && parser.state
            != State::Closed {
            Ok(parser.at(State::Container))
        } else {
            Err(FailureView::UnexpectedElement { name })
        },
        EventView::Characters(_) => Err(FailureView::UnexpectedData),
        _ => Err(FailureView::MalformedXml),
    }
}

/// What an event does inside the container, between sections.
pub open spec fn container_step(parser: ParserView, event: EventView) -> Result<
    ParserView,
    FailureView,
> {
    match event {
        EventView::StartElement { name } => if name == SECTION@ {
            Ok(parser.at(State::Section))
        } else {
            Err(FailureView::UnexpectedElement { name })
        },
        EventView::EndElement => Ok(parser.at(State::Closed)),
        EventView::Characters(_) => Err(FailureView::UnexpectedData),
        EventView::EndDocument => Err(FailureView::UnexpectedEof),
        _ => Err(FailureView::MalformedXml),
    }
}

/// What an event does inside a section, between leaves.
pub open spec fn section_step(parser: ParserView, event: EventView) -> Result<
    ParserView,
    FailureView,
> {
    match event {
        EventView::StartElement { name } => if name == LEAF@ {
            Ok(ParserView { state: State::Leaf, text: None, ..parser })
        } else {
            Err(FailureView::UnexpectedElement { name })
        },
        EventView::EndElement => Ok(parser.at(State::Container)),
        EventView::Characters(_) => Err(FailureView::UnexpectedData),
        EventView::EndDocument => Err(FailureView::UnexpectedEof),
        _ => Err(FailureView::MalformedXml),
    }
}

/// What an event does inside a leaf. Text replaces what the leaf held
/// before; the close turns the text into a path, and asks that there be some.
pub open spec fn leaf_step(parser: ParserView, event: EventView) -> Result<
    ParserView,
    FailureView,
> {
    match event {
        EventView::Characters(text) => Ok(ParserView { text: Some(text), ..parser }),
        EventView::EndElement => match parser.text {
            Some(text) if text.len() > 0 => Ok(
                ParserView { state: State::Section, text: None, names: parser.names.push(text) },
            ),
            _ => Err(FailureView::MissingData),
        },
        EventView::StartElement { name } => Err(FailureView::UnexpectedElement { name }),
        EventView::EndDocument => Err(FailureView::UnexpectedEof),
        _ => Err(FailureView::MalformedXml),
    }
}

/// One transition of the machine. A finished parser looks at no event.
pub open spec fn step(parser: ParserView, event: EventView) -> Result<ParserView, FailureView> {
    match parser.state {
        State::Start | State::Document | State::Closed => document_step(parser, event),
        State::Container => container_step(parser, event),
        State::Section => section_step(parser, event),
        State::Leaf => leaf_step(parser, event),
        State::Finished => Ok(parser),
    }
}

/// A transition leads from a well-formed parser to a well-formed parser.
pub proof fn step_keeps_well_formed(parser: ParserView, event: EventView)
    requires
        parser.well_formed(),
    ensures
        step(parser, event) matches Ok(next) ==> next.well_formed(),
{
}

/// Whether `result` is the exec form of `expected`.
pub open spec fn agrees(result: Result<Parser, Failure>, expected: Result<ParserView, FailureView>) -> bool {
    match result {
        Ok(parser) => expected == Ok::<ParserView, FailureView>(parser@),
        Err(failure) => expected == Err::<ParserView, FailureView>(failure@),
    }
}

/// Whether `name` is the literal `expected`.
fn is_named(name: &String, expected: &str) -> (same: bool)
    ensures
        same == (name@ == expected@),
{
    let wanted = String::from_str(expected);
    *name == wanted
}

/// Handles one event outside the container.
pub fn read_manifest(parser: Parser, event: Event) -> (result: Result<Parser, Failure>)
    ensures
        agrees(result, document_step(parser@, event@)),
{
    let Parser { state, text, names } = parser;
    match event {
        Event::StartDocument => {
            let next = match state {
                State::Start => State::Document,
                other => other,
            };
            Ok(Parser { state: next, text, names })
        },
        Event::EndDocument => match state {
            State::Closed => Ok(Parser { state: State::Finished, text, names }),
            _ => Err(Failure::UnexpectedEof),
        },
        Event::StartElement { name } => {
            let open = match state {
                State::Closed => false,
                _ => true,
            };
            if is_named(&name, CONTAINER) && open {
                Ok(Parser { state: State::Container, text, names })
            } else {
                Err(Failure::UnexpectedElement { name })
            }
        },
        Event::Characters(_) => Err(Failure::UnexpectedData),
        _ => Err(Failure::MalformedXml),
    }
}

/// Handles one event inside the container, between sections.
pub fn read_gresources(parser: Parser, event: Event) -> (result: Result<Parser, Failure>)
    ensures
        agrees(result, container_step(parser@, event@)),
{
    let Parser { state: _, text, names } = parser;
    match event {
        Event::StartElement { name } => {
            if is_named(&name, SECTION) {
                Ok(Parser { state: State::Section, text, names })
            } else {
                Err(Failure::UnexpectedElement { name })
            }
        },
        Event::EndElement => Ok(Parser { state: State::Closed, text, names }),
        Event::Characters(_) => Err(Failure::UnexpectedData),
        Event::EndDocument => Err(Failure::UnexpectedEof),
        _ => Err(Failure::MalformedXml),
    }
}

/// Handles one event inside a section, between leaves.
pub fn read_gresource(parser: Parser, event: Event) -> (result: Result<Parser, Failure>)
    ensures
        agrees(result, section_step(parser@, event@)),
{
    let Parser { state: _, text, names } = parser;
    match event {
        Event::StartElement { name } => {
            if is_named(&name, LEAF) {
                Ok(Parser { state: State::Leaf, text: None, names })
            } else {
                Err(Failure::UnexpectedElement { name })
            }
        },
        Event::EndElement => Ok(Parser { state: State::Container, text, names }),
        Event::Characters(_) => Err(Failure::UnexpectedData),
        Event::EndDocument => Err(Failure::UnexpectedEof),
        _ => Err(Failure::MalformedXml),
    }
}

/// Handles one event inside a leaf.
pub fn read_data(parser: Parser, event: Event) -> (result: Result<Parser, Failure>)
    ensures
        agrees(result, leaf_step(parser@, event@)),
{
    let Parser { state, text, names } = parser;
    match event {
        Event::Characters(found) => Ok(Parser { state, text: Some(found), names }),
        Event::EndElement => match text {
            Some(path) => {
                if path.as_str().is_empty() {
                    Err(Failure::MissingData)
                } else {
                    let mut names = names;
                    let ghost before = names@;
                    names.push(path);
                    assert(texts(names@) =~= texts(before).push(path@));
                    Ok(Parser { state: State::Section, text: None, names })
                }
            },
            None => Err(Failure::MissingData),
        },
        Event::StartElement { name } => Err(Failure::UnexpectedElement { name }),
        Event::EndDocument => Err(Failure::UnexpectedEof),
        _ => Err(Failure::MalformedXml),
    }
}

impl Parser {
    /// A parser that has read nothing.
    pub fn new() -> (parser: Parser)
        ensures
            parser@ == ParserView::initial(),
            parser@.well_formed(),
    {
        let parser = Parser { state: State::Start, text: None, names: Vec::new() };
        assert(parser@.names =~= Seq::empty());
        parser
    }

    /// Takes the parser over one event: the transition of the state it is in.
    pub fn feed(self, event: Event) -> (result: Result<Parser, Failure>)
        ensures
            agrees(result, step(self@, event@)),
            self@.well_formed() ==> (result matches Ok(next) ==> next@.well_formed()),
    {
        proof {
            if self@.well_formed() {
                step_keeps_well_formed(self@, event@);
            }
        }
        match self.state {
            State::Start | State::Document | State::Closed => read_manifest(self, event),
            State::Container => read_gresources(self, event),
            State::Section => read_gresource(self, event),
            State::Leaf => read_data(self, event),
            State::Finished => Ok(self),
        }
    }
}

/// Why reading a manifest failed.
#[derive(Clone, Debug, PartialEq, Eq)]
pub enum ManifestError {
    /// The markup is ill-formed; the reader's diagnostic is kept as it came.
    Markup { diagnostic: String },
    /// The markup is sound but is no manifest: what is wrong, and where.
    Structure { failure: Failure, position: Position },
}

/// A [`ManifestError`] as a mathematical value.
pub enum ManifestErrorView {
    Markup { diagnostic: Seq<char> },
    Structure { failure: FailureView, position: Position },
}

impl View for ManifestError {
    type V = ManifestErrorView;

    open spec fn view(&self) -> ManifestErrorView {
        match self {
            ManifestError::Markup { diagnostic } => ManifestErrorView::Markup {
                diagnostic: diagnostic@,
            },
            ManifestError::Structure { failure, position } => ManifestErrorView::Structure {
                failure: failure@,
                position: *position,
            },
        }
    }
}

/// What one answer of the reader does to `parser`: ill-formed markup ends
/// the reading with the reader's diagnostic, an event that the parser refuses
/// ends it with the failure and the position of the event, and any other
/// event takes the parser on.
pub open spec fn answer(parser: ParserView, pull: Pull) -> Result<ParserView, ManifestErrorView> {
    match pull.outcome {
        Err(diagnostic) => Err(ManifestErrorView::Markup { diagnostic }),
        Ok(event) => match step(parser, event) {
            Err(failure) => Err(ManifestErrorView::Structure { failure, position: pull.position }),
            Ok(next) => Ok(next),
        },
    }
}

/// What reading comes to when `parser` goes on over `pulls`, the reader
/// having last reported position `at`: the paths once the document has
/// ended, or the first thing that is wrong. Answers that run out before the
/// document has ended are a premature end.
pub open spec fn run(parser: ParserView, pulls: Seq<Pull>, at: Position) -> Result<
    Seq<Seq<char>>,
    ManifestErrorView,
>
    decreases pulls.len(),
{
    if parser.state == State::Finished {
        Ok(parser.names)
    } else if pulls.len() == 0 {
        Err(ManifestErrorView::Structure { failure: FailureView::UnexpectedEof, position: at })
    } else {
        match answer(parser, pulls[0]) {
            Err(error) => Err(error),
            Ok(next) => run(next, pulls.skip(1), pulls[0].position),
        }
    }
}

/// What reading a whole document comes to, given the reader's answers for it.
pub open spec fn manifest_paths(pulls: Seq<Pull>) -> Result<Seq<Seq<char>>, ManifestErrorView> {
    run(ParserView::initial(), pulls, Position::origin())
}

/// The result of reading a manifest as a mathematical value.
pub open spec fn paths_view(result: Result<Vec<String>, ManifestError>) -> Result<
    Seq<Seq<char>>,
    ManifestErrorView,
> {
    match result {
        Ok(names) => Ok(texts(names@)),
        Err(error) => Err(error@),
    }
}

/// Reading that starts from paths with text in them ends with such paths.
pub proof fn run_keeps_names_filled(parser: ParserView, pulls: Seq<Pull>, at: Position)
    requires
        no_name_empty(parser.names),
    ensures
        run(parser, pulls, at) matches Ok(paths) ==> no_name_empty(paths),
    decreases pulls.len(),
{
    if parser.state != State::Finished && pulls.len() > 0 {
        match pulls[0].outcome {
            Ok(event) => match step(parser, event) {
                Ok(next) => {
                    run_keeps_names_filled(next, pulls.skip(1), pulls[0].position);
                },
                Err(_) => {},
            },
            Err(_) => {},
        }
    }
}

/// Every path that reading a manifest yields has at least one character.
pub proof fn paths_are_not_empty(pulls: Seq<Pull>)
    ensures
        manifest_paths(pulls) matches Ok(paths) ==> no_name_empty(paths),
{
    run_keeps_names_filled(ParserView::initial(), pulls, Position::origin());
}

impl Parser {
    /// Takes the parser over one answer of a reader.
    pub fn answer(self, pulled: Pulled) -> (result: Result<Parser, ManifestError>)
        ensures
            match result {
                Ok(next) => answer(self@, pulled@) == Ok::<ParserView, ManifestErrorView>(next@),
                Err(error) => answer(self@, pulled@) == Err::<ParserView, ManifestErrorView>(
                    error@,
                ),
            },
            self@.well_formed() ==> (result matches Ok(next) ==> next@.well_formed()),
    {
        let Pulled { outcome, position } = pulled;
        match outcome {
            Err(diagnostic) => Err(ManifestError::Markup { diagnostic }),
            Ok(event) => match self.feed(event) {
                Err(failure) => Err(ManifestError::Structure { failure, position }),
                Ok(next) => Ok(next),
            },
        }
    }
}

/// Reads a manifest from the answers that a reader gave for it and returns
/// the paths of the files it lists, in document order, duplicates kept.
///
/// Reading stops at the first error, and at the end of the document where
/// there is none; answers behind that are not looked at.
pub fn parse_events(pulls: &[Pulled]) -> (result: Result<Vec<String>, ManifestError>)
    ensures
        paths_view(result) == manifest_paths(pulls_view(pulls@)),
        result matches Ok(names) ==> no_name_empty(texts(names@)),
{
    let mut parser = Parser::new();
    let mut at = Position { row: 0, column: 0 };
    let mut n: usize = 0;
    assert(pulls_view(pulls@).skip(0) =~= pulls_view(pulls@));
    while n < pulls.len()
        invariant
            n <= pulls.len(),
            parser.state != State::Finished,
            run(parser@, pulls_view(pulls@).skip(n as int), at) == manifest_paths(
                pulls_view(pulls@),
            ),
        decreases pulls.len() - n,
    {
        let ghost rest = pulls_view(pulls@).skip(n as int);
        assert(rest[0] == pulls@[n as int]@);
        assert(rest.skip(1) =~= pulls_view(pulls@).skip(n + 1));
        let ghost held = parser@;
        let ghost last = at;
        let pulled = pulls[n].clone();
        at = pulled.position;
        match parser.answer(pulled) {
            Err(error) => {
                assert(run(held, rest, last) == Err::<Seq<Seq<char>>, ManifestErrorView>(error@));
                return Err(error);
            },
            Ok(next) => {
                assert(run(held, rest, last) == run(next@, rest.skip(1), at));
                if next.state == State::Finished {
                    proof {
                        paths_are_not_empty(pulls_view(pulls@));
                    }
                    return Ok(next.names);
                }
                parser = next;
            },
        }
        n = n + 1;
    }
    Err(ManifestError::Structure { failure: Failure::UnexpectedEof, position: at })
}

/// Reads the manifest held in `contents` and returns the paths of the files
/// it lists, in document order, duplicates kept.
///
/// The markup is read with [`ReaderOptions::for_manifest`]. Reading stops at
/// the first error, be it the reader's or the parser's.
pub fn parse_manifest(contents: &[u8]) -> (result: Result<Vec<String>, ManifestError>)
    ensures
        paths_view(result) == manifest_paths(
            document_pulls(contents@, ReaderOptions::for_manifest()),
        ),
        result matches Ok(names) ==> no_name_empty(texts(names@)),
{
    let options = ReaderOptions::manifest();
    let mut reader = open_reader(contents, &options);
    let mut parser = Parser::new();
    let ghost mut at = Position::origin();
    loop
        invariant
            parser.state != State::Finished,
            run(parser@, upcoming(reader), at) == manifest_paths(
                document_pulls(contents@, ReaderOptions::for_manifest()),
            ),
        decreases upcoming(reader).len(),
    {
        let ghost before = upcoming(reader);
        let ghost held = parser@;
        let outcome = next_event(&mut reader);
        let position = position(&reader);
        let pulled = Pulled { outcome, position };
        assert(pulled@ == before[0]);
        match parser.answer(pulled) {
            Err(error) => {
                assert(run(held, before, at) == Err::<Seq<Seq<char>>, ManifestErrorView>(error@));
                return Err(error);
            },
            Ok(next) => {
                assert(run(held, before, at) == run(next@, before.skip(1), before[0].position));
                if next.state == State::Finished {
                    proof {
                        paths_are_not_empty(
                            document_pulls(contents@, ReaderOptions::for_manifest()),
                        );
                    }
                    return Ok(next.names);
                }
                parser = next;
                proof {
                    at = before[0].position;
                }
            },
        }
    }
}

} // verus!
