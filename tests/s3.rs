use rusoto::xmlutil::{
    end_element, skip_tree, start_element, string_field, XmlEvent, XmlParseError, XmlResponse,
};

#[derive(Debug, Default)]
struct Owner {
    display_name: Option<String>,
    i_d: Option<String>,
}

#[derive(Debug, Default)]
struct Bucket {
    creation_date: Option<String>,
    name: Option<String>,
}

#[derive(Debug, Default)]
struct ListBucketsOutput {
    buckets: Option<Vec<Bucket>>,
    owner: Option<Owner>,
}

enum DeserializerNext {
    Close,
    Skip,
    Element(String),
}

fn next_event(stack: &XmlResponse) -> DeserializerNext {
    match stack.peek() {
        Some(XmlEvent::EndElement(_)) => DeserializerNext::Close,
        Some(XmlEvent::StartElement(name, _)) => DeserializerNext::Element(name.clone()),
        _ => DeserializerNext::Skip,
    }
}

// The deserializers below follow, unit for unit, what the REST generator
// emits for these shapes.
fn owner(tag_name: &str, stack: &mut XmlResponse) -> Result<Owner, XmlParseError> {
    start_element(tag_name, stack)?;
    let mut obj = Owner::default();
    loop {
        match next_event(stack) {
            DeserializerNext::Element(name) => match &name[..] {
                "DisplayName" => obj.display_name = Some(string_field("DisplayName", stack)?),
                "ID" => obj.i_d = Some(string_field("ID", stack)?),
                _ => skip_tree(stack),
            },
            DeserializerNext::Close => break,
            DeserializerNext::Skip => stack.next(),
        }
    }
    end_element(tag_name, stack)?;
    Ok(obj)
}

fn bucket(tag_name: &str, stack: &mut XmlResponse) -> Result<Bucket, XmlParseError> {
    start_element(tag_name, stack)?;
    let mut obj = Bucket::default();
    loop {
        match next_event(stack) {
            DeserializerNext::Element(name) => match &name[..] {
                "CreationDate" => obj.creation_date = Some(string_field("CreationDate", stack)?),
                "Name" => obj.name = Some(string_field("Name", stack)?),
                _ => skip_tree(stack),
            },
            DeserializerNext::Close => break,
            DeserializerNext::Skip => stack.next(),
        }
    }
    end_element(tag_name, stack)?;
    Ok(obj)
}

fn buckets(tag_name: &str, stack: &mut XmlResponse) -> Result<Vec<Bucket>, XmlParseError> {
    let mut obj = vec![];
    start_element(tag_name, stack)?;
    loop {
        match next_event(stack) {
            DeserializerNext::Element(name) => {
                if name == "Bucket" {
                    obj.push(bucket("Bucket", stack)?);
                } else {
                    skip_tree(stack);
                }
            }
            DeserializerNext::Close => {
                end_element(tag_name, stack)?;
                break;
            }
            DeserializerNext::Skip => stack.next(),
        }
    }
    Ok(obj)
}

fn list_buckets_output(
    tag_name: &str,
    stack: &mut XmlResponse,
) -> Result<ListBucketsOutput, XmlParseError> {
    start_element(tag_name, stack)?;
    let mut obj = ListBucketsOutput::default();
    loop {
        match next_event(stack) {
            DeserializerNext::Element(name) => match &name[..] {
                "Buckets" => obj.buckets = Some(buckets("Buckets", stack)?),
                "Owner" => obj.owner = Some(owner("Owner", stack)?),
                _ => skip_tree(stack),
            },
            DeserializerNext::Close => break,
            DeserializerNext::Skip => stack.next(),
        }
    }
    end_element(tag_name, stack)?;
    Ok(obj)
}

fn list_buckets(body: &str) -> Result<ListBucketsOutput, XmlParseError> {
    let mut stack = XmlResponse::from_body(body)?;
    stack.next();
    let tag = rusoto::rest_xml::generate_response_tag_name("ListBucketsOutput");
    while let Some(XmlEvent::Other) = stack.peek() {
        stack.next();
    }
    list_buckets_output(&tag, &mut stack)
}

#[test]
// sample response from the S3 documentation
fn should_parse_sample_list_buckets_response() {
    let body = r#"
            <?xml version="1.0" encoding="UTF-8"?>
            <ListAllMyBucketsResult xmlns="http://s3.amazonaws.com/doc/2006-03-01">
                <Owner>
                <ID>bcaf1ffd86f461ca5fb16fd081034f</ID>
                <DisplayName>webfile</DisplayName>
                </Owner>
                <Buckets>
                <Bucket>
                        <Name>quotes</Name>
                        <CreationDate>2006-02-03T16:45:09.000Z</CreationDate>
                </Bucket>
                <Bucket>
                        <Name>samples</Name>
                        <CreationDate>2006-02-03T16:41:58.000Z</CreationDate>
                </Bucket>
                </Buckets>
            </ListAllMyBucketsResult>
            "#;

    let result = list_buckets(body).unwrap();

    let owner = result.owner.unwrap();
    assert_eq!(owner.display_name, Some("webfile".to_string()));
    assert_eq!(owner.i_d, Some("bcaf1ffd86f461ca5fb16fd081034f".to_string()));

    let buckets = result.buckets.unwrap();
    assert_eq!(buckets.len(), 2);

    let bucket1 = buckets.get(0).unwrap();
    assert_eq!(bucket1.name, Some("quotes".to_string()));
    assert_eq!(bucket1.creation_date, Some("2006-02-03T16:45:09.000Z".to_string()));
}

#[test]
fn list_buckets_keeps_entry_order_and_skips_unknown_elements() {
    let body = "<?xml version=\"1.0\"?><ListAllMyBucketsResult><Extra><Deep>x</Deep></Extra>\
        <Owner><ID>id</ID><Unknown/><DisplayName>me</DisplayName></Owner>\
        <Buckets><Bucket><Name>a</Name><CreationDate>d1</CreationDate></Bucket>\
        <Other>y</Other>\
        <Bucket><Name>b</Name><CreationDate>d2</CreationDate></Bucket></Buckets>\
        </ListAllMyBucketsResult>";
    let result = list_buckets(body).unwrap();
    let owner = result.owner.unwrap();
    assert_eq!(owner.i_d, Some("id".to_string()));
    assert_eq!(owner.display_name, Some("me".to_string()));
    let buckets = result.buckets.unwrap();
    assert_eq!(buckets.len(), 2);
    assert_eq!(buckets[0].name, Some("a".to_string()));
    assert_eq!(buckets[1].name, Some("b".to_string()));
    assert_eq!(buckets[1].creation_date, Some("d2".to_string()));
}

#[test]
fn missing_optional_members_stay_absent() {
    let body = "<?xml version=\"1.0\"?><ListAllMyBucketsResult><Owner><ID>id</ID></Owner></ListAllMyBucketsResult>";
    let result = list_buckets(body).unwrap();
    assert!(result.buckets.is_none());
    let owner = result.owner.unwrap();
    assert_eq!(owner.i_d, Some("id".to_string()));
    assert_eq!(owner.display_name, None);
}
