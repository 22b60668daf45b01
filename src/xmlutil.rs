//! Reading XML responses: a document read into its events, and the helpers
//! that generated deserializers use to walk them.

use vstd::prelude::*;
use crate::text::{push_char, str_eq};

verus! {

/// An event of an XML document, as the helpers see it.
#[derive(Clone, Debug)]
pub enum XmlEvent {
    /// An opening tag: its local name and its attributes as (name, value) pairs.
    StartElement(String, Vec<(String, String)>),
    /// A closing tag and its local name.
    EndElement(String),
    /// Text content.
    Characters(String),
    /// Anything else: the declaration, whitespace, comments.
    Other,
}

/// Generic error for XML parsing.
#[derive(Debug)]
pub struct XmlParseError(pub String);

impl XmlParseError {
    pub fn new(msg: &str) -> (r: XmlParseError)
        ensures
            r.0@ == msg@,
    {
        XmlParseError(String::from_str(msg))
    }
}

/// What xml-rs reads from a document: its events, or nothing where the text
/// is not well-formed XML.
pub uninterp spec fn xml_events_of(body: Seq<char>) -> Option<Seq<XmlEvent>>;

/// Relies on xml-rs's `EventReader`, which reads a document into its events;
/// tags are kept by local name. The result depends on the text alone.
#[verifier::external_body]
fn read_events(body: &str) -> (r: Result<Vec<XmlEvent>, XmlParseError>)
    ensures
        r is Ok <==> xml_events_of(body@) is Some,
        r matches Ok(v) ==> xml_events_of(body@) == Some(v@),
{
    xml::reader::EventReader::from_str(body).into_iter().map(|e| match e {
        Ok(xml::reader::XmlEvent::StartElement { name, attributes, .. }) => Ok(XmlEvent::StartElement(
            name.local_name, attributes.into_iter().map(|a| (a.name.local_name, a.value)).collect())),
        Ok(xml::reader::XmlEvent::EndElement { name }) => Ok(XmlEvent::EndElement(name.local_name)),
        Ok(xml::reader::XmlEvent::Characters(text)) => Ok(XmlEvent::Characters(text)),
        Ok(_) => Ok(XmlEvent::Other),
        Err(e) => Err(XmlParseError(e.to_string())),
    }).collect()
}

pub open spec fn is_space(c: char) -> bool {
    c == ' ' || c == '\n' || c == '\r' || c == '\t'
}

fn space(c: char) -> (r: bool)
    ensures
        r == is_space(c),
{
    c == ' ' || c == '\n' || c == '\r' || c == '\t'
}

/// The text without the whitespace it starts with.
pub open spec fn without_leading_space(s: Seq<char>) -> Seq<char>
    decreases s.len(),
{
    if s.len() > 0 && is_space(s[0]) {
        without_leading_space(s.drop_first())
    } else {
        s
    }
}

proof fn lemma_without_leading_space(s: Seq<char>, i: int)
    requires
        0 <= i <= s.len(),
        forall|k: int| 0 <= k < i ==> is_space(s[k]),
        i == s.len() || !is_space(s[i]),
    ensures
        without_leading_space(s) == s.subrange(i, s.len() as int),
    decreases i,
{
    if i == 0 {
        assert(s.subrange(0, s.len() as int) =~= s);
    } else {
        let t = s.drop_first();
        assert forall|k: int| 0 <= k < i - 1 implies is_space(#[trigger] t[k]) by {
            assert(t[k] == s[k + 1]);
        }
        if i - 1 < t.len() {
            assert(t[i - 1] == s[i]);
        }
        lemma_without_leading_space(t, i - 1);
        assert(t.subrange(i - 1, t.len() as int) =~= s.subrange(i, s.len() as int));
    }
}

/// The events of a response and the position of the next one.
pub struct XmlResponse {
    pub events: Vec<XmlEvent>,
    pub pos: usize,
}

/// The position after consuming the event at `p`, where there is one.
pub open spec fn next_pos(ev: Seq<XmlEvent>, p: int) -> int {
    if 0 <= p < ev.len() {
        p + 1
    } else {
        p
    }
}

pub open spec fn is_start(ev: Seq<XmlEvent>, p: int, name: Seq<char>) -> bool {
    0 <= p < ev.len() && (ev[p] matches XmlEvent::StartElement(n, _) && n@ == name)
}

pub open spec fn is_end(ev: Seq<XmlEvent>, p: int, name: Seq<char>) -> bool {
    0 <= p < ev.len() && (ev[p] matches XmlEvent::EndElement(n) && n@ == name)
}

pub open spec fn is_characters(ev: Seq<XmlEvent>, p: int) -> bool {
    0 <= p < ev.len() && ev[p] is Characters
}

/// The text of a field `<name>text</name>` at `p`, where one stands there.
pub open spec fn text_field(ev: Seq<XmlEvent>, p: int, name: Seq<char>) -> Option<Seq<char>> {
    if is_start(ev, p, name) && is_characters(ev, p + 1) && is_end(ev, p + 2, name) {
        Some(ev[p + 1]->Characters_0@)
    } else {
        None
    }
}

/// Where reading a field at `p` stops: after the first event that does not
/// fit, or after the end tag.
pub open spec fn text_field_end(ev: Seq<XmlEvent>, p: int, name: Seq<char>) -> int {
    if !is_start(ev, p, name) {
        next_pos(ev, p)
    } else if !is_characters(ev, p + 1) {
        next_pos(ev, p + 1)
    } else {
        next_pos(ev, p + 2)
    }
}

/// Where skipping from `p` stops, `depth` elements deep: after the end tag
/// that closes the element, or at the end of the events.
pub open spec fn skip_end(ev: Seq<XmlEvent>, p: int, depth: nat) -> int
    decreases ev.len() - p,
{
    if p < 0 || p >= ev.len() {
        p
    } else {
        match ev[p] {
            XmlEvent::StartElement(_, _) => skip_end(ev, p + 1, depth + 1),
            XmlEvent::EndElement(_) => if depth > 1 {
                skip_end(ev, p + 1, (depth - 1) as nat)
            } else {
                p + 1
            },
            _ => skip_end(ev, p + 1, depth),
        }
    }
}

impl XmlResponse {
    pub fn new(events: Vec<XmlEvent>) -> (r: XmlResponse)
        ensures
            r.events@ == events@,
            r.pos == 0,
    {
        XmlResponse { events, pos: 0 }
    }

    /// The events of a document, positioned at its first event. Whitespace
    /// before the document is dropped first: the reader refuses a
    /// declaration that does not stand at the very start.
    pub fn from_body(body: &str) -> (r: Result<XmlResponse, XmlParseError>)
        ensures
            r is Ok <==> xml_events_of(without_leading_space(body@)) is Some,
            r matches Ok(s) ==> xml_events_of(without_leading_space(body@)) == Some(s.events@)
                && s.pos == 0,
    {
        let n = body.unicode_len();
        let mut i: usize = 0;
        while i < n && space(body.get_char(i))
            invariant
                n == body@.len(),
                0 <= i <= n,
                forall|k: int| 0 <= k < i ==> is_space(body@[k]),
            decreases n - i,
        {
            i += 1;
        }
        proof {
            lemma_without_leading_space(body@, i as int);
        }
        match read_events(body.substring_char(i, n)) {
            Ok(events) => Ok(XmlResponse::new(events)),
            Err(e) => Err(e),
        }
    }

    /// The next event, left in place.
    pub fn peek(&self) -> (r: Option<&XmlEvent>)
        ensures
            self.pos < self.events.len() ==> r == Some(&self.events[self.pos as int]),
            self.pos >= self.events.len() ==> r is None,
    {
        if self.pos < self.events.len() {
            Some(&self.events[self.pos])
        } else {
            None
        }
    }

    /// Consumes the next event, where there is one.
    pub fn next(&mut self)
        ensures
            final(self).events == old(self).events,
            final(self).pos == next_pos(old(self).events@, old(self).pos as int),
    {
        if self.pos < self.events.len() {
            self.pos = self.pos + 1;
        }
    }
}

/// Consumes the next event and returns its text, or fails where it is not text.
pub fn characters(stack: &mut XmlResponse) -> (r: Result<String, XmlParseError>)
    ensures
        final(stack).events == old(stack).events,
        final(stack).pos == next_pos(old(stack).events@, old(stack).pos as int),
        r is Ok <==> is_characters(old(stack).events@, old(stack).pos as int),
        r matches Ok(s) ==> s@ == old(stack).events@[old(stack).pos as int]->Characters_0@,
{
    let r = match stack.peek() {
        Some(XmlEvent::Characters(data)) => Ok(data.clone()),
        _ => Err(XmlParseError::new("Expected characters")),
    };
    stack.next();
    r
}

/// The local name of the next event where it is an opening tag, else the
/// empty name.
pub fn peek_at_name(stack: &XmlResponse) -> (r: Result<String, XmlParseError>)
    ensures
        r matches Ok(n) && (if 0 <= stack.pos < stack.events.len()
            && stack.events@[stack.pos as int] is StartElement {
            n@ == stack.events@[stack.pos as int]->StartElement_0@
        } else {
            n@.len() == 0
        }),
{
    match stack.peek() {
        Some(XmlEvent::StartElement(name, _)) => Ok(name.clone()),
        _ => Ok(String::new()),
    }
}

fn clone_attributes(a: &Vec<(String, String)>) -> (r: Vec<(String, String)>)
    ensures
        r@ == a@,
{
    let mut r: Vec<(String, String)> = Vec::new();
    let mut i: usize = 0;
    while i < a.len()
        invariant
            0 <= i <= a.len(),
            r@ == a@.take(i as int),
        decreases a.len() - i,
    {
        r.push((a[i].0.clone(), a[i].1.clone()));
        assert(a@.take(i + 1) =~= a@.take(i as int).push(a[i as int]));
        i += 1;
    }
    assert(a@.take(a.len() as int) =~= a@);
    r
}

/// Consumes an opening tag named `element_name` and returns its attributes,
/// or fails where the next event is anything else.
pub fn start_element(element_name: &str, stack: &mut XmlResponse) -> (r: Result<
    Vec<(String, String)>,
    XmlParseError,
>)
    ensures
        final(stack).events == old(stack).events,
        final(stack).pos == next_pos(old(stack).events@, old(stack).pos as int),
        r is Ok <==> is_start(old(stack).events@, old(stack).pos as int, element_name@),
        r matches Ok(a) ==> a@ == old(stack).events@[old(stack).pos as int]->StartElement_1@,
{
    let r = match stack.peek() {
        Some(XmlEvent::StartElement(name, attributes)) => {
            if str_eq(name.as_str(), element_name) {
                Ok(clone_attributes(attributes))
            } else {
                Err(
                    XmlParseError(
                        String::from_str("START Expected ").concat(element_name).concat(
                            " got ",
                        ).concat(name.as_str()),
                    ),
                )
            }
        },
        _ => Err(XmlParseError(String::from_str("Expected StartElement ").concat(element_name))),
    };
    stack.next();
    r
}

/// Consumes a closing tag named `element_name`, or fails where the next
/// event is anything else.
pub fn end_element(element_name: &str, stack: &mut XmlResponse) -> (r: Result<(), XmlParseError>)
    ensures
        final(stack).events == old(stack).events,
        final(stack).pos == next_pos(old(stack).events@, old(stack).pos as int),
        r is Ok <==> is_end(old(stack).events@, old(stack).pos as int, element_name@),
{
    let r = match stack.peek() {
        Some(XmlEvent::EndElement(name)) => {
            if str_eq(name.as_str(), element_name) {
                Ok(())
            } else {
                Err(
                    XmlParseError(
                        String::from_str("END Expected ").concat(element_name).concat(
                            " got ",
                        ).concat(name.as_str()),
                    ),
                )
            }
        },
        _ => Err(XmlParseError(String::from_str("Expected EndElement ").concat(element_name))),
    };
    stack.next();
    r
}

/// Skips an element and everything inside it: consumes events up to and
/// including the end tag that closes it.
pub fn skip_tree(stack: &mut XmlResponse)
    ensures
        final(stack).events == old(stack).events,
        final(stack).pos == skip_end(old(stack).events@, old(stack).pos as int, 0),
{
    let ghost ev = stack.events@;
    let start = stack.pos;
    let len = stack.events.len();
    if start > len {
        return;
    }
    let mut pos = start;
    let mut deep: usize = 0;
    let mut done = false;
    while pos < len && !done
        invariant
            ev == stack.events@,
            len == ev.len(),
            start <= pos <= len,
            deep <= pos - start,
            done ==> skip_end(ev, start as int, 0) == pos,
            !done ==> skip_end(ev, start as int, 0) == skip_end(ev, pos as int, deep as nat),
        decreases len - pos,
    {
        let stop = match &stack.events[pos] {
            XmlEvent::StartElement(_, _) => {
                deep = deep + 1;
                false
            },
            XmlEvent::EndElement(_) => {
                if deep > 1 {
                    deep = deep - 1;
                    false
                } else {
                    true
                }
            },
            _ => false,
        };
        pos = pos + 1;
        done = stop;
    }
    stack.pos = pos;
}

/// Reads a field `<name>text</name>` and returns its text, or fails at the
/// first event that does not fit.
pub fn string_field(name: &str, stack: &mut XmlResponse) -> (r: Result<String, XmlParseError>)
    ensures
        final(stack).events == old(stack).events,
        final(stack).pos == text_field_end(old(stack).events@, old(stack).pos as int, name@),
        opt_ok(r) == text_field(old(stack).events@, old(stack).pos as int, name@),
{
    start_element(name, stack)?;
    let value = characters(stack)?;
    end_element(name, stack)?;
    Ok(value)
}

pub open spec fn opt_ok(r: Result<String, XmlParseError>) -> Option<Seq<char>> {
    match r {
        Ok(s) => Some(s@),
        Err(_) => None,
    }
}

/// Reads the field `<name>text</name>` where the next event opens it, and
/// returns nothing, consuming nothing, where it does not.
pub fn optional_string_field(name: &str, stack: &mut XmlResponse) -> (r: Result<
    Option<String>,
    XmlParseError,
>)
    ensures
        final(stack).events == old(stack).events,
        is_start(old(stack).events@, old(stack).pos as int, name@) ==> {
            &&& final(stack).pos == text_field_end(old(stack).events@, old(stack).pos as int, name@)
            &&& match r {
                Ok(Some(s)) => text_field(old(stack).events@, old(stack).pos as int, name@) == Some(s@),
                Ok(None) => false,
                Err(_) => text_field(old(stack).events@, old(stack).pos as int, name@) is None,
            }
        },
        !is_start(old(stack).events@, old(stack).pos as int, name@) ==> final(stack).pos == old(
            stack,
        ).pos && r matches Ok(None),
{
    let next = peek_at_name(stack)?;
    if str_eq(next.as_str(), name) && (stack.pos < stack.events.len() && matches!(stack.events[stack.pos], XmlEvent::StartElement(_, _))) {
        let val = string_field(name, stack)?;
        Ok(Some(val))
    } else {
        Ok(None)
    }
}

/// The text of a character inside an element: markup characters as entities.
pub open spec fn escape_char(c: char) -> Seq<char> {
    if c == '&' {
        "&amp;"@
    } else if c == '<' {
        "&lt;"@
    } else if c == '>' {
        "&gt;"@
    } else if c == '"' {
        "&quot;"@
    } else if c == '\'' {
        "&apos;"@
    } else {
        seq![c]
    }
}

pub open spec fn escaped(s: Seq<char>) -> Seq<char>
    decreases s.len(),
{
    if s.len() == 0 {
        Seq::empty()
    } else {
        escaped(s.drop_last()) + escape_char(s.last())
    }
}

/// The text with each markup character written as its entity, so that it
/// can stand as the content of an element.
pub fn xml_escape(s: &str) -> (r: String)
    ensures
        r@ == escaped(s@),
{
    let n = s.unicode_len();
    let mut r = String::new();
    let mut i: usize = 0;
    while i < n
        invariant
            n == s@.len(),
            0 <= i <= n,
            r@ == escaped(s@.take(i as int)),
        decreases n - i,
    {
        let c = s.get_char(i);
        assert(s@.take(i + 1).drop_last() =~= s@.take(i as int));
        assert(s@.take(i + 1).last() == c);
        if c == '&' {
            r.append("&amp;");
        } else if c == '<' {
            r.append("&lt;");
        } else if c == '>' {
            r.append("&gt;");
        } else if c == '"' {
            r.append("&quot;");
        } else if c == '\'' {
            r.append("&apos;");
        } else {
            let ghost before = r@;
            push_char(&mut r, c);
            assert(r@ =~= before + seq![c]);
        }
        i += 1;
    }
    assert(s@.take(n as int) =~= s@);
    r
}

/// Elements opened minus elements closed among the first `k` events.
pub open spec fn depth(w: Seq<XmlEvent>, k: int) -> int
    decreases k,
{
    if k <= 0 {
        0
    } else {
        depth(w, k - 1) + match w[k - 1] {
            XmlEvent::StartElement(_, _) => 1int,
            XmlEvent::EndElement(_) => -1int,
            _ => 0int,
        }
    }
}

/// A whole element: an opening tag, content in which every element that
/// opens also closes, and the closing tag.
pub open spec fn is_element(w: Seq<XmlEvent>) -> bool {
    &&& w.len() > 0
    &&& w[0] is StartElement
    &&& depth(w, w.len() as int) == 0
    &&& forall|k: int| 1 <= k < w.len() ==> depth(w, k) >= 1
}

proof fn lemma_skip_inside(ev: Seq<XmlEvent>, b: int, w: Seq<XmlEvent>, i: int)
    requires
        0 <= b,
        b + w.len() <= ev.len(),
        ev.subrange(b, b + w.len()) == w,
        is_element(w),
        1 <= i < w.len(),
    ensures
        skip_end(ev, b + i, depth(w, i) as nat) == b + w.len(),
    decreases w.len() - i,
{
    assert(ev[b + i] == w[i]);
    let d = depth(w, i);
    assert(depth(w, i + 1) == d + match w[i] {
        XmlEvent::StartElement(_, _) => 1int,
        XmlEvent::EndElement(_) => -1int,
        _ => 0int,
    });
    match w[i] {
        XmlEvent::EndElement(_) => {
            if d > 1 {
                lemma_skip_inside(ev, b, w, i + 1);
            } else {
                if i + 1 < w.len() {
                    assert(depth(w, i + 1) >= 1);
                }
            }
        },
        _ => {
            lemma_skip_inside(ev, b, w, i + 1);
        },
    }
}

/// Unknown elements do not disturb known fields: skipping an element,
/// whatever it holds, lands on what follows it, so a field read there reads
/// as if the element were absent.
pub proof fn lemma_unknown_element_skipped(
    before: Seq<XmlEvent>,
    w: Seq<XmlEvent>,
    after: Seq<XmlEvent>,
    name: Seq<char>,
)
    requires
        is_element(w),
    ensures
        skip_end(before + w + after, before.len() as int, 0) == before.len() + w.len(),
        text_field(before + w + after, (before.len() + w.len()) as int, name) == text_field(
            before + after,
            before.len() as int,
            name,
        ),
{
    let ev = before + w + after;
    let b = before.len() as int;
    assert(ev.subrange(b, b + w.len()) =~= w);
    assert(ev[b] == w[0]);
    assert(depth(w, 0) == 0);
    assert(depth(w, 1) == 1);
    if w.len() == 1 {
        assert(depth(w, 1) == 0);
    }
    lemma_skip_inside(ev, b, w, 1);
    let other = before + after;
    let q = b + w.len();
    if after.len() > 0 {
        assert(ev[q] == after[0] && other[b] == after[0]);
    }
    if after.len() > 1 {
        assert(ev[q + 1] == after[1] && other[b + 1] == after[1]);
    }
    if after.len() > 2 {
        assert(ev[q + 2] == after[2] && other[b + 2] == after[2]);
    }
    assert(ev.len() - (b + w.len()) == other.len() - b);
}

/// Text values read back unchanged: a field written as `<name>text</name>`
/// gives the text, and reading stops right after its closing tag.
pub proof fn lemma_text_field_round_trip(
    open: String,
    attributes: Vec<(String, String)>,
    text: String,
    close: String,
    rest: Seq<XmlEvent>,
)
    requires
        open@ == close@,
    ensures
        ({
            let ev = seq![
                XmlEvent::StartElement(open, attributes),
                XmlEvent::Characters(text),
                XmlEvent::EndElement(close),
            ] + rest;
            text_field(ev, 0, open@) == Some(text@) && text_field_end(ev, 0, open@) == 3
        }),
{
    let ev = seq![
        XmlEvent::StartElement(open, attributes),
        XmlEvent::Characters(text),
        XmlEvent::EndElement(close),
    ] + rest;
    assert(ev[0] == XmlEvent::StartElement(open, attributes));
    assert(ev[1] == XmlEvent::Characters(text));
    assert(ev[2] == XmlEvent::EndElement(close));
}

} // verus!
