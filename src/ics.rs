//! Reading iCalendar text into the properties of its events.
use vstd::prelude::*;
use crate::props::Property;

verus! {

#[verifier::external_type_specification]
#[verifier::external_body]
pub struct ExParserError(ical::parser::ParserError);

/// The events that the ical crate's parser finds in `text`, across all its
/// calendars and in order, each as its list of properties; `None` where the
/// parser reports an error.
pub uninterp spec fn parsed_events(text: Seq<char>) -> Option<Seq<Vec<Property>>>;

/// Relies on the ical crate's `IcalParser`, run over the whole text: each
/// calendar it yields contributes its events, and the first error stops it.
#[verifier::external_body]
fn parse_with_ical(text: &str) -> (r: Result<Vec<Vec<Property>>, ical::parser::ParserError>)
    ensures
        r is Ok <==> parsed_events(text@) is Some,
        r matches Ok(evs) ==> parsed_events(text@) == Some(evs@),
{
    let mut events = Vec::new();
    for cal in ical::IcalParser::new(text.as_bytes()) {
        for ev in cal?.events {
            events.push(ev.properties.into_iter()
                .map(|p| Property { name: p.name, params: p.params, value: p.value })
                .collect());
        }
    }
    Ok(events)
}

/// The events of an iCalendar text, each as its properties in order; `None`
/// where the text is not well-formed.
pub fn parse_events(text: &str) -> (r: Option<Vec<Vec<Property>>>)
    ensures
        r is Some <==> parsed_events(text@) is Some,
        r matches Some(evs) ==> parsed_events(text@) == Some(evs@),
{
    match parse_with_ical(text) {
        Ok(evs) => Some(evs),
        Err(_) => None,
    }
}

} // verus!
