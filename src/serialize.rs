//! Rendering an event's properties back into iCalendar text.
use vstd::prelude::*;
use crate::props::{Property, join_with, views_of, join_strings};

verus! {

/// `KEY=V1,V2` for one parameter.
pub open spec fn param_text(param: (String, Vec<String>)) -> Seq<char> {
    param.0@ + "="@ + join_with(views_of(param.1@), ","@)
}

/// All parameters of a property, joined by `;` (empty without any).
pub open spec fn params_text(p: Property) -> Seq<char> {
    match p.params {
        Some(ps) => join_with(Seq::new(ps@.len(), |i: int| param_text(ps@[i])), ";"@),
        None => Seq::empty(),
    }
}

/// The value of a property, empty when it has none.
pub open spec fn value_text(p: Property) -> Seq<char> {
    match p.value {
        Some(v) => v@,
        None => Seq::empty(),
    }
}

/// One CRLF-terminated line: `NAME:VALUE`, or `NAME;PARAMS:VALUE`.
pub open spec fn property_line(p: Property) -> Seq<char> {
    if params_text(p).len() == 0 {
        p.name@ + ":"@ + value_text(p) + "\r\n"@
    } else {
        p.name@ + ";"@ + params_text(p) + ":"@ + value_text(p) + "\r\n"@
    }
}

/// The lines of all properties, in order.
pub open spec fn property_lines(props: Seq<Property>) -> Seq<char>
    decreases props.len(),
{
    if props.len() == 0 {
        Seq::empty()
    } else {
        property_lines(props.drop_last()) + property_line(props.last())
    }
}

/// A whole event: `BEGIN:VEVENT`, one line per property, `END:VEVENT`.
pub open spec fn event_text(props: Seq<Property>) -> Seq<char> {
    "BEGIN:VEVENT\r\n"@ + property_lines(props) + "END:VEVENT\r\n"@
}

/// The parameters of `p` as `K1=V1,V2;K2=V3`.
pub fn render_params(p: &Property) -> (r: String)
    ensures
        r@ == params_text(*p),
{
    let mut acc = String::new();
    match p.params.as_ref() {
        Some(ps) => {
            let ghost texts = Seq::new(ps@.len(), |i: int| param_text(ps@[i]));
            let mut i: usize = 0;
            while i < ps.len()
                invariant
                    i <= ps.len(),
                    p.params == Some(*ps),
                    texts == Seq::new(ps@.len(), |i: int| param_text(ps@[i])),
                    acc@ == join_with(texts.take(i as int), ";"@),
                decreases ps.len() - i,
            {
                assert(texts.take(i as int + 1).drop_last() =~= texts.take(i as int));
                if i > 0 {
                    acc.append(";");
                }
                acc.append(ps[i].0.as_str());
                acc.append("=");
                let vs = join_strings(&ps[i].1, ",");
                acc.append(vs.as_str());
                i = i + 1;
            }
            assert(texts.take(ps.len() as int) =~= texts);
        },
        None => {},
    }
    acc
}

/// The event's properties as iCalendar text, lines ending in CRLF.
pub fn serialize_event(props: &Vec<Property>) -> (r: String)
    ensures
        r@ == event_text(props@),
{
    let mut out = String::from_str("BEGIN:VEVENT\r\n");
    let ghost head = out@;
    let mut i: usize = 0;
    while i < props.len()
        invariant
            i <= props.len(),
            head == "BEGIN:VEVENT\r\n"@,
            out@ == head + property_lines(props@.take(i as int)),
        decreases props.len() - i,
    {
        assert(props@.take(i as int + 1).drop_last() =~= props@.take(i as int));
        let p = &props[i];
        let params = render_params(p);
        out.append(p.name.as_str());
        if params.unicode_len() == 0 {
            out.append(":");
        } else {
            out.append(";");
            out.append(params.as_str());
            out.append(":");
        }
        match p.value.as_ref() {
            Some(v) => out.append(v.as_str()),
            None => {},
        }
        out.append("\r\n");
        i = i + 1;
    }
    assert(props@.take(props.len() as int) =~= props@);
    out.append("END:VEVENT\r\n");
    out
}

} // verus!
