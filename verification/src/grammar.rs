//! What the parser does with whole documents: the events of a well-formed
//! manifest, and the first wrong event of one that is not.

use vstd::prelude::*;
use crate::compile::{declaration_of, declarations_of, watched_paths};
use crate::events::{EventView, Position, Pull};
use crate::manifest::{
    manifest_paths, run, step, FailureView, ManifestErrorView, ParserView, State, CONTAINER, LEAF,
    SECTION,
};

verus! {

/// The parser taken over `events` in order, up to the first failure.
pub open spec fn walk(parser: ParserView, events: Seq<EventView>) -> Result<
    ParserView,
    FailureView,
>
    decreases events.len(),
{
    if events.len() == 0 {
        Ok(parser)
    } else {
        match step(parser, events[0]) {
            Ok(next) => walk(next, events.skip(1)),
            Err(failure) => Err(failure),
        }
    }
}

/// The answers of a reader that gives `events` and reports `positions`.
pub open spec fn answers(events: Seq<EventView>, positions: Seq<Position>) -> Seq<Pull> {
    Seq::new(events.len(), |i: int| Pull { outcome: Ok(events[i]), position: positions[i] })
}

/// The events of one leaf that holds `path`.
pub open spec fn leaf_events(path: Seq<char>) -> Seq<EventView> {
    seq![
        EventView::StartElement { name: LEAF@ },
        EventView::Characters(path),
        EventView::EndElement,
    ]
}

/// The events of the leaves that hold `paths`, in order.
pub open spec fn leaves_events(paths: Seq<Seq<char>>) -> Seq<EventView>
    decreases paths.len(),
{
    if paths.len() == 0 {
        Seq::empty()
    } else {
        leaves_events(paths.drop_last()) + leaf_events(paths.last())
    }
}

/// The events of one section whose leaves hold `paths`.
pub open spec fn section_events(paths: Seq<Seq<char>>) -> Seq<EventView> {
    seq![EventView::StartElement { name: SECTION@ }] + leaves_events(paths)
        + seq![EventView::EndElement]
}

/// The events of `sections` in order, each given by the paths of its leaves.
pub open spec fn sections_events(sections: Seq<Seq<Seq<char>>>) -> Seq<EventView>
    decreases sections.len(),
{
    if sections.len() == 0 {
        Seq::empty()
    } else {
        sections_events(sections.drop_last()) + section_events(sections.last())
    }
}

/// The events of a well-formed manifest with `sections`.
pub open spec fn manifest_events(sections: Seq<Seq<Seq<char>>>) -> Seq<EventView> {
    seq![EventView::StartDocument, EventView::StartElement { name: CONTAINER@ }]
        + sections_events(sections) + seq![EventView::EndElement, EventView::EndDocument]
}

/// The paths of `sections` in document order.
pub open spec fn all_paths(sections: Seq<Seq<Seq<char>>>) -> Seq<Seq<char>>
    decreases sections.len(),
{
    if sections.len() == 0 {
        Seq::empty()
    } else {
        all_paths(sections.drop_last()) + sections.last()
    }
}

/// Whether every path of `sections` has at least one character.
pub open spec fn no_path_empty(sections: Seq<Seq<Seq<char>>>) -> bool {
    forall|i: int, j: int|
        0 <= i < sections.len() && 0 <= j < sections[i].len() ==> (#[trigger] sections[i][j]).len()
            > 0
}

/// Whether an element named `name` may open in `state`.
pub open spec fn may_open(state: State, name: Seq<char>) -> bool {
    match state {
        State::Start | State::Document => name == CONTAINER@,
        State::Container => name == SECTION@,
        State::Section => name == LEAF@,
        State::Leaf | State::Closed | State::Finished => false,
    }
}

/// Walking two runs of events joined is walking one after the other.
pub proof fn walk_of_joined(parser: ParserView, first: Seq<EventView>, second: Seq<EventView>)
    ensures
        walk(parser, first + second) == match walk(parser, first) {
            Ok(next) => walk(next, second),
            Err(failure) => Err(failure),
        },
    decreases first.len(),
{
    if first.len() == 0 {
        assert(first + second =~= second);
    } else {
        assert((first + second)[0] == first[0]);
        assert((first + second).skip(1) =~= first.skip(1) + second);
        match step(parser, first[0]) {
            Ok(next) => walk_of_joined(next, first.skip(1), second),
            Err(_) => {},
        }
    }
}

/// Reading goes over events that the parser accepts, and on with what
/// follows them.
pub proof fn run_over_accepted(
    parser: ParserView,
    events: Seq<EventView>,
    positions: Seq<Position>,
    rest: Seq<Pull>,
    at: Position,
)
    requires
        positions.len() == events.len(),
        walk(parser, events) is Ok,
    ensures
        run(parser, answers(events, positions) + rest, at) == run(
            walk(parser, events)->Ok_0,
            rest,
            if events.len() == 0 {
                at
            } else {
                positions.last()
            },
        ),
    decreases events.len(),
{
    let pulls = answers(events, positions) + rest;
    if events.len() == 0 {
        assert(pulls =~= rest);
    } else if parser.state == State::Finished {
        finished_stays(parser, events);
    } else {
        assert(pulls[0] == answers(events, positions)[0]);
        let next = step(parser, events[0])->Ok_0;
        assert(pulls.skip(1) =~= answers(events.skip(1), positions.skip(1)) + rest);
        run_over_accepted(next, events.skip(1), positions.skip(1), rest, positions[0]);
        if events.len() > 1 {
            assert(positions.skip(1).last() == positions.last());
        }
    }
}

/// A finished parser stays as it is whatever events follow.
pub proof fn finished_stays(parser: ParserView, events: Seq<EventView>)
    requires
        parser.state == State::Finished,
    ensures
        walk(parser, events) == Ok::<ParserView, FailureView>(parser),
    decreases events.len(),
{
    if events.len() > 0 {
        finished_stays(parser, events.skip(1));
    }
}

/// Walking one event is one step.
proof fn walk_of_one(parser: ParserView, event: EventView)
    ensures
        walk(parser, seq![event]) == step(parser, event),
{
    let events = seq![event];
    assert(events[0] == event);
    match step(parser, event) {
        Ok(next) => {
            assert(events.skip(1).len() == 0);
            assert(walk(next, events.skip(1)) == Ok::<ParserView, FailureView>(next));
        },
        Err(_) => {},
    }
}

/// Walking two events is two steps.
proof fn walk_of_two(parser: ParserView, first: EventView, second: EventView)
    ensures
        walk(parser, seq![first, second]) == match step(parser, first) {
            Ok(next) => step(next, second),
            Err(failure) => Err(failure),
        },
{
    walk_of_one(parser, first);
    match step(parser, first) {
        Ok(next) => walk_of_one(next, second),
        Err(_) => {},
    }
    walk_of_joined(parser, seq![first], seq![second]);
    assert(seq![first] + seq![second] =~= seq![first, second]);
}

/// A leaf with text in it adds its text to the paths.
proof fn walk_of_leaf(parser: ParserView, path: Seq<char>)
    requires
        parser.state == State::Section,
        path.len() > 0,
    ensures
        walk(parser, leaf_events(path)) == Ok::<ParserView, FailureView>(
            ParserView { state: State::Section, text: None, names: parser.names.push(path) },
        ),
{
    let events = leaf_events(path);
    let opened = step(parser, events[0])->Ok_0;
    walk_of_one(parser, events[0]);
    walk_of_two(opened, events[1], events[2]);
    walk_of_joined(parser, seq![events[0]], seq![events[1], events[2]]);
    assert(seq![events[0]] + seq![events[1], events[2]] =~= events);
}

/// Leaves with text in them add their texts to the paths, in order.
proof fn walk_of_leaves(parser: ParserView, paths: Seq<Seq<char>>)
    requires
        parser.state == State::Section,
        forall|j: int| 0 <= j < paths.len() ==> (#[trigger] paths[j]).len() > 0,
    ensures
        walk(parser, leaves_events(paths)) == Ok::<ParserView, FailureView>(
            ParserView {
                state: State::Section,
                text: if paths.len() == 0 {
                    parser.text
                } else {
                    None
                },
                names: parser.names + paths,
            },
        ),
    decreases paths.len(),
{
    if paths.len() == 0 {
        assert(parser.names + paths =~= parser.names);
    } else {
        let front = paths.drop_last();
        walk_of_leaves(parser, front);
        let middle = walk(parser, leaves_events(front))->Ok_0;
        walk_of_leaf(middle, paths.last());
        walk_of_joined(parser, leaves_events(front), leaf_events(paths.last()));
        assert((parser.names + front).push(paths.last()) =~= parser.names + paths);
    }
}

/// A section adds the texts of its leaves to the paths.
proof fn walk_of_section(parser: ParserView, paths: Seq<Seq<char>>)
    requires
        parser.state == State::Container,
        forall|j: int| 0 <= j < paths.len() ==> (#[trigger] paths[j]).len() > 0,
    ensures
        walk(parser, section_events(paths)) matches Ok(next) && next.state == State::Container
            && next.names == parser.names + paths,
{
    let open = seq![EventView::StartElement { name: SECTION@ }];
    let close = seq![EventView::EndElement];
    let inside = parser.at(State::Section);
    walk_of_one(parser, open[0]);
    assert(walk(parser, open) == Ok::<ParserView, FailureView>(inside));
    walk_of_leaves(inside, paths);
    let filled = walk(inside, leaves_events(paths))->Ok_0;
    walk_of_one(filled, close[0]);
    assert(walk(filled, close) == Ok::<ParserView, FailureView>(filled.at(State::Container)));
    walk_of_joined(parser, open, leaves_events(paths));
    walk_of_joined(parser, open + leaves_events(paths), close);
}

/// Sections add the texts of their leaves to the paths, in document order.
proof fn walk_of_sections(parser: ParserView, sections: Seq<Seq<Seq<char>>>)
    requires
        parser.state == State::Container,
        no_path_empty(sections),
    ensures
        walk(parser, sections_events(sections)) matches Ok(next) && next.state
            == State::Container && next.names == parser.names + all_paths(sections),
    decreases sections.len(),
{
    if sections.len() == 0 {
        assert(parser.names + all_paths(sections) =~= parser.names);
    } else {
        let front = sections.drop_last();
        assert(no_path_empty(front)) by {
            assert forall|i: int, j: int|
                0 <= i < front.len() && 0 <= j < front[i].len() implies (#[trigger] front[i][j]).len()
                > 0 by {
                assert(front[i] == sections[i]);
                assert(sections[i][j].len() > 0);
            }
        }
        walk_of_sections(parser, front);
        let middle = walk(parser, sections_events(front))->Ok_0;
        let last = sections.last();
        assert forall|j: int| 0 <= j < last.len() implies (#[trigger] last[j]).len() > 0 by {
            assert(sections[sections.len() - 1][j].len() > 0);
        }
        walk_of_section(middle, last);
        walk_of_joined(parser, sections_events(front), section_events(last));
        assert(parser.names + all_paths(front) + last =~= parser.names + all_paths(sections));
    }
}

/// A well-formed manifest yields the paths of its leaves, all of them, in
/// document order, duplicates kept, wherever in the text its events stand.
pub proof fn well_formed_manifest_yields_its_paths(
    sections: Seq<Seq<Seq<char>>>,
    positions: Seq<Position>,
)
    requires
        no_path_empty(sections),
        positions.len() == manifest_events(sections).len(),
    ensures
        manifest_paths(answers(manifest_events(sections), positions)) == Ok::<
            Seq<Seq<char>>,
            ManifestErrorView,
        >(all_paths(sections)),
{
    let start = ParserView::initial();
    let head = seq![EventView::StartDocument, EventView::StartElement { name: CONTAINER@ }];
    let tail = seq![EventView::EndElement, EventView::EndDocument];
    let opened = start.at(State::Container);
    walk_of_two(start, head[0], head[1]);
    assert(walk(start, head) == Ok::<ParserView, FailureView>(opened));
    walk_of_sections(opened, sections);
    let filled = walk(opened, sections_events(sections))->Ok_0;
    assert(start.names + all_paths(sections) =~= all_paths(sections));
    let done = filled.at(State::Finished);
    walk_of_two(filled, tail[0], tail[1]);
    assert(walk(filled, tail) == Ok::<ParserView, FailureView>(done));
    walk_of_joined(start, head, sections_events(sections));
    walk_of_joined(start, head + sections_events(sections), tail);
    let events = manifest_events(sections);
    assert(walk(start, events) == Ok::<ParserView, FailureView>(done));
    run_over_accepted(start, events, positions, Seq::empty(), Position::origin());
    assert(answers(events, positions) + Seq::<Pull>::empty() =~= answers(events, positions));
}

/// What reading comes to is decided where the accepted events end: by the
/// next answer of the reader, whatever follows it.
pub proof fn next_answer_decides(
    events: Seq<EventView>,
    positions: Seq<Position>,
    pull: Pull,
    rest: Seq<Pull>,
)
    requires
        positions.len() == events.len(),
        walk(ParserView::initial(), events) matches Ok(parser) && parser.state != State::Finished,
    ensures
        manifest_paths(answers(events, positions) + seq![pull] + rest) == match pull.outcome {
            Err(diagnostic) => Err(ManifestErrorView::Markup { diagnostic }),
            Ok(event) => match step(walk(ParserView::initial(), events)->Ok_0, event) {
                Err(failure) => Err(
                    ManifestErrorView::Structure { failure, position: pull.position },
                ),
                Ok(next) => run(next, rest, pull.position),
            },
        },
{
    let start = ParserView::initial();
    let tail = seq![pull] + rest;
    run_over_accepted(start, events, positions, tail, Position::origin());
    assert(answers(events, positions) + seq![pull] + rest =~= answers(events, positions) + tail);
    assert(tail[0] == pull);
    assert(tail.skip(1) =~= rest);
}

/// An element that opens where no element of its name may stand fails the
/// reading with an error that names it: an element other than the container
/// at the top, other than a section in the container, other than a leaf in a
/// section, any element in a leaf, and any element after the container.
pub proof fn unrecognized_element_fails(
    events: Seq<EventView>,
    positions: Seq<Position>,
    name: Seq<char>,
    at: Position,
    rest: Seq<Pull>,
)
    requires
        positions.len() == events.len(),
        walk(ParserView::initial(), events) matches Ok(parser) && parser.state != State::Finished
            && !may_open(parser.state, name),
    ensures
        manifest_paths(
            answers(events, positions) + seq![
                Pull { outcome: Ok(EventView::StartElement { name }), position: at },
            ] + rest,
        ) == Err::<Seq<Seq<char>>, ManifestErrorView>(
            ManifestErrorView::Structure {
                failure: FailureView::UnexpectedElement { name },
                position: at,
            },
        ),
{
    let pull = Pull { outcome: Ok(EventView::StartElement { name }), position: at };
    next_answer_decides(events, positions, pull, rest);
}

/// A leaf that closes without having held text, or having held empty text
/// only, fails the reading for want of data.
pub proof fn leaf_without_text_fails(
    events: Seq<EventView>,
    positions: Seq<Position>,
    at: Position,
    rest: Seq<Pull>,
)
    requires
        positions.len() == events.len(),
        walk(ParserView::initial(), events) matches Ok(parser) && parser.state == State::Leaf && (
        parser.text matches Some(text) ==> text.len() == 0),
    ensures
        manifest_paths(
            answers(events, positions) + seq![
                Pull { outcome: Ok(EventView::EndElement), position: at },
            ] + rest,
        ) == Err::<Seq<Seq<char>>, ManifestErrorView>(
            ManifestErrorView::Structure { failure: FailureView::MissingData, position: at },
        ),
{
    let pull = Pull { outcome: Ok(EventView::EndElement), position: at };
    next_answer_decides(events, positions, pull, rest);
}

/// A leaf that closes as soon as it has opened fails the reading for want of
/// data.
pub proof fn empty_leaf_fails(
    events: Seq<EventView>,
    positions: Seq<Position>,
    opens_at: Position,
    closes_at: Position,
    rest: Seq<Pull>,
)
    requires
        positions.len() == events.len(),
        walk(ParserView::initial(), events) matches Ok(parser) && parser.state == State::Section,
    ensures
        manifest_paths(
            answers(events, positions) + seq![
                Pull { outcome: Ok(EventView::StartElement { name: LEAF@ }), position: opens_at },
                Pull { outcome: Ok(EventView::EndElement), position: closes_at },
            ] + rest,
        ) == Err::<Seq<Seq<char>>, ManifestErrorView>(
            ManifestErrorView::Structure { failure: FailureView::MissingData, position: closes_at },
        ),
{
    let open = EventView::StartElement { name: LEAF@ };
    let longer = events.push(open);
    let places = positions.push(opens_at);
    walk_of_joined(ParserView::initial(), events, seq![open]);
    walk_of_one(walk(ParserView::initial(), events)->Ok_0, open);
    assert(events + seq![open] =~= longer);
    leaf_without_text_fails(longer, places, closes_at, rest);
    assert(answers(longer, places) =~= answers(events, positions) + seq![
        Pull { outcome: Ok(open), position: opens_at },
    ]);
    assert(answers(events, positions) + seq![
        Pull { outcome: Ok(open), position: opens_at },
        Pull { outcome: Ok(EventView::EndElement), position: closes_at },
    ] + rest =~= answers(longer, places) + seq![
        Pull { outcome: Ok(EventView::EndElement), position: closes_at },
    ] + rest);
}

/// An element that opens inside a leaf fails the reading with an error that
/// names it, whatever its name.
pub proof fn element_in_leaf_fails(
    events: Seq<EventView>,
    positions: Seq<Position>,
    name: Seq<char>,
    at: Position,
    rest: Seq<Pull>,
)
    requires
        positions.len() == events.len(),
        walk(ParserView::initial(), events) matches Ok(parser) && parser.state == State::Leaf,
    ensures
        manifest_paths(
            answers(events, positions) + seq![
                Pull { outcome: Ok(EventView::StartElement { name }), position: at },
            ] + rest,
        ) == Err::<Seq<Seq<char>>, ManifestErrorView>(
            ManifestErrorView::Structure {
                failure: FailureView::UnexpectedElement { name },
                position: at,
            },
        ),
{
    unrecognized_element_fails(events, positions, name, at, rest);
}

/// A well-formed manifest whose leaves hold N paths gives N + 1
/// declarations: the manifest's own first, then one for each path, in
/// document order.
pub proof fn well_formed_manifest_is_declared(
    manifest: Seq<char>,
    sections: Seq<Seq<Seq<char>>>,
    positions: Seq<Position>,
)
    requires
        no_path_empty(sections),
        positions.len() == manifest_events(sections).len(),
    ensures
        watched_paths(manifest, manifest_paths(answers(manifest_events(sections), positions)))
            == Ok::<Seq<Seq<char>>, ManifestErrorView>(seq![manifest] + all_paths(sections)),
        declarations_of(seq![manifest] + all_paths(sections)).len() == all_paths(sections).len()
            + 1,
        declarations_of(seq![manifest] + all_paths(sections))[0] == declaration_of(manifest),
        forall|i: int|
            0 <= i < all_paths(sections).len() ==> declarations_of(
                seq![manifest] + all_paths(sections),
            )[i + 1] == declaration_of(#[trigger] all_paths(sections)[i]),
{
    well_formed_manifest_yields_its_paths(sections, positions);
}

} // verus!
