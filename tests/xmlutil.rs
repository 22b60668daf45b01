use rusoto::xmlutil::{
    characters, end_element, optional_string_field, peek_at_name, skip_tree, start_element,
    string_field, xml_escape, XmlEvent, XmlParseError, XmlResponse,
};

const LIST_QUEUES: &str = "<?xml version=\"1.0\"?><ListQueuesResponse xmlns=\"http://queue.amazonaws.com/doc/2012-11-05/\"><ListQueuesResult><QueueUrl>https://sqs.us-east-1.amazonaws.com/347452556413/testqueue</QueueUrl></ListQueuesResult><ResponseMetadata><RequestId>725275ae-0b9b-4762-b238-436d7c65a1ac</RequestId></ResponseMetadata></ListQueuesResponse>";

fn events(v: Vec<XmlEvent>) -> XmlResponse {
    XmlResponse::new(v)
}

fn start(name: &str) -> XmlEvent {
    XmlEvent::StartElement(name.to_string(), vec![])
}

fn end(name: &str) -> XmlEvent {
    XmlEvent::EndElement(name.to_string())
}

fn text(t: &str) -> XmlEvent {
    XmlEvent::Characters(t.to_string())
}

#[test]
fn peek_at_name_happy_path() {
    let mut reader = XmlResponse::from_body(LIST_QUEUES).unwrap();
    let mut steps = 0;
    loop {
        reader.next();
        steps += 1;
        assert!(steps < 20, "Couldn't peek at name");
        match peek_at_name(&reader) {
            Ok(data) => {
                if data == "QueueUrl" {
                    return;
                }
            }
            Err(_) => panic!("Couldn't peek at name"),
        }
    }
}

#[test]
fn start_element_happy_path() {
    let mut reader = XmlResponse::from_body(LIST_QUEUES).unwrap();

    // skip two leading fields since we ignore them (xml declaration, return type declaration)
    reader.next();
    reader.next();

    match start_element("ListQueuesResult", &mut reader) {
        Ok(_) => (),
        Err(_) => panic!("Couldn't find start element"),
    }
}

#[test]
fn string_field_happy_path() {
    let mut reader = XmlResponse::from_body(LIST_QUEUES).unwrap();

    // skip two leading fields since we ignore them (xml declaration, return type declaration)
    reader.next();
    reader.next();

    reader.next(); // reader now at ListQueuesResult

    // now we're set up to use string:
    let my_chars = string_field("QueueUrl", &mut reader).unwrap();
    assert_eq!(my_chars, "https://sqs.us-east-1.amazonaws.com/347452556413/testqueue")
}

#[test]
fn end_element_happy_path() {
    let mut reader = XmlResponse::from_body(LIST_QUEUES).unwrap();

    // skip two leading fields since we ignore them (xml declaration, return type declaration)
    reader.next();
    reader.next();

    reader.next();
    reader.next();
    reader.next();
    reader.next();

    match end_element("ListQueuesResult", &mut reader) {
        Ok(_) => (),
        Err(_) => panic!("Couldn't find end element"),
    }
}

#[test]
fn leading_whitespace_is_dropped() {
    let mut reader = XmlResponse::from_body("\n   <?xml version=\"1.0\"?><a>t</a>").unwrap();
    reader.next();
    assert_eq!(string_field("a", &mut reader).unwrap(), "t");
}

#[test]
fn parse_error_keeps_its_message() {
    let e = XmlParseError::new("bad tag");
    assert_eq!(e.0, "bad tag");
}

#[test]
fn malformed_document_is_refused() {
    assert!(XmlResponse::from_body("<a><b></a>").is_err());
}

#[test]
fn document_reads_into_events() {
    let mut reader = XmlResponse::from_body("<a k=\"v\"><b>t</b></a>").unwrap();
    assert_eq!(reader.events.len(), 7);
    reader.next();
    match start_element("a", &mut reader) {
        Ok(attributes) => assert_eq!(attributes, vec![("k".to_string(), "v".to_string())]),
        Err(e) => panic!("{:?}", e),
    }
    assert_eq!(string_field("b", &mut reader).unwrap(), "t");
    assert!(end_element("a", &mut reader).is_ok());
}

#[test]
fn text_field_round_trip() {
    for value in ["", "plain", "2006-02-03T16:45:09.000Z", "with spaces & symbols"] {
        let mut stack = events(vec![start("Name"), text(value), end("Name"), start("Next")]);
        assert_eq!(string_field("Name", &mut stack).unwrap(), value);
        assert_eq!(stack.pos, 3);
        assert_eq!(peek_at_name(&stack).unwrap(), "Next");
    }
}

#[test]
fn start_element_with_other_name_fails() {
    let mut stack = events(vec![start("A")]);
    let e = start_element("B", &mut stack).unwrap_err();
    assert_eq!(e.0, "START Expected B got A");
    assert_eq!(stack.pos, 1);
}

#[test]
fn start_element_on_text_fails() {
    let mut stack = events(vec![text("x")]);
    let e = start_element("B", &mut stack).unwrap_err();
    assert_eq!(e.0, "Expected StartElement B");
}

#[test]
fn end_element_with_other_name_fails() {
    let mut stack = events(vec![end("A")]);
    assert_eq!(end_element("B", &mut stack).unwrap_err().0, "END Expected B got A");
    let mut stack = events(vec![start("B")]);
    assert_eq!(end_element("B", &mut stack).unwrap_err().0, "Expected EndElement B");
}

#[test]
fn characters_on_a_tag_fails() {
    let mut stack = events(vec![start("A")]);
    assert_eq!(characters(&mut stack).unwrap_err().0, "Expected characters");
    assert_eq!(stack.pos, 1);
    let mut stack = events(vec![]);
    assert!(characters(&mut stack).is_err());
    assert_eq!(stack.pos, 0);
}

#[test]
fn peek_at_name_is_empty_off_a_tag() {
    let stack = events(vec![text("x")]);
    assert_eq!(peek_at_name(&stack).unwrap(), "");
    let stack = events(vec![]);
    assert_eq!(peek_at_name(&stack).unwrap(), "");
}

#[test]
fn skip_tree_skips_a_whole_element() {
    let mut stack = events(vec![
        start("Unknown"),
        start("Inner"),
        text("x"),
        end("Inner"),
        start("Empty"),
        end("Empty"),
        end("Unknown"),
        start("Known"),
        text("value"),
        end("Known"),
    ]);
    skip_tree(&mut stack);
    assert_eq!(stack.pos, 7);
    assert_eq!(string_field("Known", &mut stack).unwrap(), "value");
}

#[test]
fn skip_tree_stops_at_the_end() {
    let mut stack = events(vec![start("A"), start("B")]);
    skip_tree(&mut stack);
    assert_eq!(stack.pos, 2);
}

#[test]
fn optional_field_present_and_absent() {
    let mut stack = events(vec![start("A"), text("1"), end("A"), start("C")]);
    assert_eq!(optional_string_field("A", &mut stack).unwrap(), Some("1".to_string()));
    assert_eq!(optional_string_field("B", &mut stack).unwrap(), None);
    assert_eq!(stack.pos, 3);
}

#[test]
fn escaping_writes_entities() {
    assert_eq!(xml_escape("a<b>&\"c'"), "a&lt;b&gt;&amp;&quot;c&apos;");
    assert_eq!(xml_escape("plain"), "plain");
    assert_eq!(xml_escape(""), "");
}
