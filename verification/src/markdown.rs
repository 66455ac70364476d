//! The title that a Markdown text gives itself: the text of its first
//! level-one heading, where that heading holds plain text and nothing
//! else.

use vstd::prelude::*;

verus! {

/// What title inference reads of one event of a Markdown parser.
#[derive(Debug, PartialEq, Eq)]
pub enum MarkdownEvent {
    /// A heading of the given level (1 to 6) starts.
    HeadingStart(u8),
    /// A heading ends.
    HeadingEnd,
    /// A run of plain text.
    Text(String),
    /// Anything else.
    Other,
}

/// An event as contracts speak of it.
pub enum MarkdownEventView {
    HeadingStart(u8),
    HeadingEnd,
    Text(Seq<char>),
    Other,
}

impl View for MarkdownEvent {
    type V = MarkdownEventView;

    open spec fn view(&self) -> MarkdownEventView {
        match *self {
            MarkdownEvent::HeadingStart(level) => MarkdownEventView::HeadingStart(level),
            MarkdownEvent::HeadingEnd => MarkdownEventView::HeadingEnd,
            MarkdownEvent::Text(text) => MarkdownEventView::Text(text@),
            MarkdownEvent::Other => MarkdownEventView::Other,
        }
    }
}

/// The events as contracts speak of them.
pub open spec fn event_views(events: Seq<MarkdownEvent>) -> Seq<MarkdownEventView> {
    Seq::new(events.len(), |i: int| events[i]@)
}

/// The events that `pulldown_cmark::Parser::new` yields for a text, each
/// reduced to its kind, the level of a starting heading and the text of
/// a text run.
pub uninterp spec fn markdown_events_of(contents: Seq<char>) -> Seq<MarkdownEventView>;

/// Runs `pulldown_cmark::Parser::new` over `contents` and keeps of each
/// event its kind, the level of a starting heading and the text of a text
/// run. The contract only gives that result its name.
#[verifier::external_body]
fn markdown_events(contents: &str) -> (r: Vec<MarkdownEvent>)
    ensures
        event_views(r@) == markdown_events_of(contents@),
{
    pulldown_cmark::Parser::new(contents).map(|event| match event {
        pulldown_cmark::Event::Start(pulldown_cmark::Tag::Heading(level, _, _)) => MarkdownEvent::HeadingStart(level as u8),
        pulldown_cmark::Event::End(pulldown_cmark::Tag::Heading(_, _, _)) => MarkdownEvent::HeadingEnd,
        pulldown_cmark::Event::Text(text) => MarkdownEvent::Text(text.into_string()),
        _ => MarkdownEvent::Other,
    }).collect()
}

/// The event starts a level-one heading.
pub open spec fn starts_h1(event: MarkdownEventView) -> bool {
    event matches MarkdownEventView::HeadingStart(level) && level == 1
}

/// The title that the events give: the first level-one heading decides.
/// It gives a title when one text run and then the heading's end follow
/// its start, and none otherwise.
pub open spec fn title_in(events: Seq<MarkdownEventView>) -> Option<Seq<char>>
    decreases events.len(),
{
    if events.len() == 0 {
        None
    } else if starts_h1(events[0]) {
        if events.len() >= 3 && events[1] is Text && events[2] is HeadingEnd {
            Some(events[1]->Text_0)
        } else {
            None
        }
    } else {
        title_in(events.drop_first())
    }
}

/// The title that `events` give.
pub fn infer_title_from_events(events: &Vec<MarkdownEvent>) -> (r: Option<String>)
    ensures
        match r {
            Some(title) => title_in(event_views(events@)) == Some(title@),
            None => title_in(event_views(events@)) is None,
        },
{
    let ghost views = event_views(events@);
    let mut i: usize = 0;
    assert(views.skip(0) =~= views);
    while i < events.len()
        invariant
            i <= events.len(),
            views == event_views(events@),
            title_in(views) == title_in(views.skip(i as int)),
        decreases events.len() - i,
    {
        let ghost rest = views.skip(i as int);
        assert(rest.drop_first() =~= views.skip(i + 1));
        let h1 = match &events[i] {
            MarkdownEvent::HeadingStart(level) => *level == 1,
            _ => false,
        };
        if h1 {
            if events.len() - i < 3 {
                return None;
            }
            return match (&events[i + 1], &events[i + 2]) {
                (MarkdownEvent::Text(text), MarkdownEvent::HeadingEnd) => Some(text.clone()),
                _ => None,
            };
        }
        i = i + 1;
    }
    None
}

/// The title that the Markdown text `contents` gives itself.
pub fn infer_title(contents: &str) -> (r: Option<String>)
    ensures
        match r {
            Some(title) => title_in(markdown_events_of(contents@)) == Some(title@),
            None => title_in(markdown_events_of(contents@)) is None,
        },
{
    let events = markdown_events(contents);
    infer_title_from_events(&events)
}

} // verus!
