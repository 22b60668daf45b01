use rusoto::botocore::{
    Http, Member, Metadata, NamedShape, Operation, Service, Shape, ShapeRef, ShapeType,
    StructureMember,
};
use rusoto::ec2::{self, Ec2Generator};
use rusoto::generator::{generate_field_name, GenerateProtocol, Response};
use rusoto::rest_xml::{self, RestXmlGenerator};
use rusoto::text::{capitalize_first, replace_all};

fn member(shape: &str) -> Member {
    Member {
        shape: shape.to_string(),
        location: None,
        location_name: None,
        streaming: false,
        deprecated: false,
    }
}

fn located(shape: &str, location: &str, name: &str) -> Member {
    Member {
        location: Some(location.to_string()),
        location_name: Some(name.to_string()),
        ..member(shape)
    }
}

fn primitive(t: ShapeType) -> Shape {
    Shape {
        shape_type: t,
        members: vec![],
        required: vec![],
        payload: None,
        member: None,
        key: None,
        value: None,
    }
}

fn structure(members: Vec<(&str, Member)>, required: &[&str]) -> Shape {
    Shape {
        members: members
            .into_iter()
            .map(|(n, m)| StructureMember { name: n.to_string(), member: m })
            .collect(),
        required: required.iter().map(|r| r.to_string()).collect(),
        ..primitive(ShapeType::Structure)
    }
}

fn list_of(element: Member) -> Shape {
    Shape { member: Some(element), ..primitive(ShapeType::List) }
}

fn operation(name: &str, input: Option<&str>, output: Option<&str>, uri: &str) -> Operation {
    Operation {
        name: name.to_string(),
        documentation: None,
        http: Http { method: "GET".to_string(), request_uri: uri.to_string() },
        input: input.map(|s| ShapeRef { shape: s.to_string() }),
        output: output.map(|s| ShapeRef { shape: s.to_string() }),
    }
}

fn service(operations: Vec<Operation>, shapes: Vec<(&str, Shape)>) -> Service {
    Service {
        metadata: Metadata {
            endpoint_prefix: "ec2".to_string(),
            api_version: "2015-10-01".to_string(),
            service_full_name: "Amazon Elastic Compute Cloud".to_string(),
            service_abbreviation: Some("Amazon EC2".to_string()),
        },
        operations,
        shapes: shapes
            .into_iter()
            .map(|(n, s)| NamedShape { name: n.to_string(), shape: s })
            .collect(),
    }
}

fn ec2_service() -> Service {
    service(
        vec![
            operation("CreateSnapshot", Some("CreateSnapshotRequest"), Some("Snapshot"), "/"),
            operation("AttachVolume", Some("AttachVolumeRequest"), Some("VolumeAttachment"), "/"),
            operation("DetachVolume", None, Some("VolumeAttachment"), "/"),
            operation("DescribeRegions", None, Some("DescribeRegionsResult"), "/"),
            operation("RebootInstances", Some("RebootInstancesRequest"), None, "/"),
        ],
        vec![],
    )
}

fn s3_service() -> Service {
    let get_object_request = structure(
        vec![
            ("Bucket", located("BucketName", "uri", "Bucket")),
            ("IfMatch", located("IfMatch", "header", "If-Match")),
            ("Key", located("ObjectKey", "uri", "Key")),
            ("Range", located("Range", "header", "Range")),
            ("VersionId", located("ObjectVersionId", "querystring", "versionId")),
        ],
        &["Bucket", "Key", "Range"],
    );
    let put_object_request = structure(
        vec![
            ("Body", Member { streaming: true, ..located("Body", "body", "Body") }),
            ("Bucket", located("BucketName", "uri", "Bucket")),
            ("Key", located("ObjectKey", "uri", "Key")),
        ],
        &["Bucket"],
    );
    let put_object_request = Shape { payload: Some("Body".to_string()), ..put_object_request };
    let put_bucket_acl_request = structure(
        vec![
            ("AccessControlPolicy", member("AccessControlPolicy")),
            ("Bucket", located("BucketName", "uri", "Bucket")),
        ],
        &["AccessControlPolicy", "Bucket"],
    );
    let put_bucket_acl_request =
        Shape { payload: Some("AccessControlPolicy".to_string()), ..put_bucket_acl_request };
    let mut s = service(
        vec![
            operation("ListBuckets", None, Some("ListBucketsOutput"), "/"),
            operation("GetObject", Some("GetObjectRequest"), Some("GetObjectOutput"), "/{Bucket}/{Key+}"),
            operation("PutObject", Some("PutObjectRequest"), Some("PutObjectOutput"), "/{Bucket}/{Key+}"),
            operation("PutBucketAcl", Some("PutBucketAclRequest"), None, "/{Bucket}?acl"),
        ],
        vec![
            ("GetObjectRequest", get_object_request),
            ("PutObjectRequest", put_object_request),
            ("PutBucketAclRequest", put_bucket_acl_request),
        ],
    );
    s.metadata.endpoint_prefix = "s3".to_string();
    s
}

#[test]
fn query_response_tag_follows_the_convention() {
    assert_eq!(ec2::generate_response_tag_name("DescribeInstancesResult"), "DescribeInstancesResponse");
    assert_eq!(ec2::generate_response_tag_name("Snapshot"), "Snapshot");
    assert_eq!(ec2::generate_response_tag_name("Result"), "Response");
}

#[test]
fn rest_response_tag_uses_the_exception_table() {
    assert_eq!(rest_xml::generate_response_tag_name("ListBucketsOutput"), "ListAllMyBucketsResult");
    assert_eq!(rest_xml::generate_response_tag_name("GetObjectOutput"), "GetObjectOutput");
    assert_eq!(rest_xml::generate_response_tag_name("CopyObjectResult"), "CopyObjectResponse");
}

#[test]
fn query_methods_use_root_tag_exceptions() {
    let text = Ec2Generator.generate_methods(&ec2_service());
    assert!(text.contains("SnapshotDeserializer::deserialize(\"CreateSnapshotResponse\", &mut stack)"));
    assert!(text.contains("VolumeAttachmentDeserializer::deserialize(\"AttachVolumeResponse\", &mut stack)"));
    assert!(text.contains("VolumeAttachmentDeserializer::deserialize(\"DetachVolumeResponse\", &mut stack)"));
    assert!(text.contains("DescribeRegionsResultDeserializer::deserialize(\"DescribeRegionsResponse\", &mut stack)"));
}

#[test]
fn query_methods_send_action_version_and_input() {
    let text = Ec2Generator.generate_methods(&ec2_service());
    assert!(text.contains("params.put(\"Action\", \"CreateSnapshot\");"));
    assert!(text.contains("params.put(\"Version\", \"2015-10-01\");"));
    assert!(text.contains("CreateSnapshotRequestSerializer::serialize(&mut params, \"\", &input);"));
    assert!(text.contains(
        "pub fn create_snapshot(&self, input: &CreateSnapshotRequest) -> Result<Snapshot, CreateSnapshotError>"
    ));
    assert!(text.contains("pub fn describe_regions(&self) -> Result<DescribeRegionsResult, DescribeRegionsError>"));
    assert!(text.contains("pub fn reboot_instances(&self, input: &RebootInstancesRequest) -> Result<(), RebootInstancesError>"));
    assert!(text.contains("SignedRequest::new(\"GET\", \"ec2\", self.region, \"/\");"));
    assert!(text.contains("_ => Err(CreateSnapshotError::from_body(&result.body)),"));
    let first = text.find("create_snapshot").unwrap();
    let last = text.find("reboot_instances").unwrap();
    assert!(first < last);
}

#[test]
fn methods_of_a_service_without_operations_are_empty() {
    let s = service(vec![], vec![]);
    assert_eq!(Ec2Generator.generate_methods(&s), "");
    assert_eq!(RestXmlGenerator.generate_methods(&s), "");
}

#[test]
fn generation_is_deterministic() {
    let a = s3_service();
    let b = s3_service();
    assert_eq!(RestXmlGenerator.generate_methods(&a), RestXmlGenerator.generate_methods(&b));
    let c = ec2_service();
    let d = ec2_service();
    assert_eq!(Ec2Generator.generate_methods(&c), Ec2Generator.generate_methods(&d));
}

#[test]
fn documentation_is_escaped() {
    let mut op = operation("Run", None, None, "/");
    op.documentation = Some("say \"hi\" in C:\\dir".to_string());
    let text = Ec2Generator.generate_methods(&service(vec![op], vec![]));
    assert!(text.starts_with("#[doc=\"say \\\"hi\\\" in C:\\\\dir\"]\n"));
}

#[test]
fn field_names_are_snake_case() {
    assert_eq!(generate_field_name("DisplayName"), "display_name");
    assert_eq!(generate_field_name("Type"), "type_");
    assert_eq!(generate_field_name("Return"), "return_");
}

#[test]
fn capitalize_first_upper_cases_one_letter() {
    assert_eq!(capitalize_first("groupName"), "GroupName");
    assert_eq!(capitalize_first("Name"), "Name");
    assert_eq!(capitalize_first("1x"), "1x");
    assert_eq!(capitalize_first(""), "");
}

#[test]
fn query_structure_units() {
    let shape = structure(
        vec![
            ("groupName", member("String")),
            ("Count", Member { location_name: Some("count".to_string()), ..member("Integer") }),
            ("Old", Member { deprecated: true, ..member("String") }),
        ],
        &["groupName"],
    );
    let s = ec2_service();
    let text = Ec2Generator.generate_support_types("Group", &shape, &s).unwrap();
    assert!(text.contains("StringSerializer::serialize(params, &format!(\"{}GroupName\", prefix), &obj.group_name);"));
    assert!(text.contains("if let Some(ref field_value) = obj.count {\n    IntegerSerializer::serialize(params, &format!(\"{}Count\", prefix), field_value);\n}"));
    assert!(text.contains("\"groupName\" => {\n    obj.group_name = try!(StringDeserializer::deserialize(\"groupName\", stack));\n}"));
    assert!(text.contains("\"count\" => {\n    obj.count = Some(try!(IntegerDeserializer::deserialize(\"count\", stack)));\n}"));
    assert!(text.contains("_ => skip_tree(stack),"));
    assert!(!text.contains("Old"));
    assert!(!text.contains("obj.old"));
}

#[test]
fn query_list_units() {
    let shape = list_of(Member { location_name: Some("item".to_string()), ..member("GroupIdentifier") });
    let text = Ec2Generator.generate_support_types("GroupList", &shape, &ec2_service()).unwrap();
    assert!(text.contains("let key = format!(\"{}.{}\", name, index);\n    GroupIdentifierSerializer::serialize(params, &key, element);"));
    assert!(text.contains("if name == \"item\" {\n                obj.push(try!(GroupIdentifierDeserializer::deserialize(\"item\", stack)));"));
}

#[test]
fn query_map_serializer_names_entries() {
    let shape = Shape { key: Some(member("String")), value: Some(member("Long")), ..primitive(ShapeType::Mapping) };
    let text = Ec2Generator.generate_support_types("TagRequest", &shape, &ec2_service()).unwrap();
    assert!(text.contains("StringSerializer::serialize(params, &format!(\"{}.{}\", prefix, \"String\"), key);"));
    assert!(text.contains("LongSerializer::serialize(params, &format!(\"{}.{}\", prefix, \"Long\"), value);"));
    assert!(!text.contains("Deserializer"));
}

#[test]
fn query_requests_and_responses_get_one_unit() {
    let shape = structure(vec![("A", member("String"))], &[]);
    let s = ec2_service();
    let request = Ec2Generator.generate_support_types("RunInstancesRequest", &shape, &s).unwrap();
    assert!(request.contains("struct RunInstancesRequestSerializer;"));
    assert!(!request.contains("Deserializer"));
    let carried = Ec2Generator.generate_support_types("SpotInstanceRequest", &shape, &s).unwrap();
    assert!(carried.contains("struct SpotInstanceRequestDeserializer;"));
    let response = Ec2Generator.generate_support_types("RunInstancesResponse", &shape, &s).unwrap();
    assert!(!response.contains("Serializer;"));
    assert!(response.contains("struct RunInstancesResponseDeserializer;"));
}

#[test]
fn query_primitive_and_marker_units() {
    let s = ec2_service();
    let text = Ec2Generator.generate_support_types("Integer", &primitive(ShapeType::Integer), &s).unwrap();
    assert!(text.contains("params.put(name, &obj.to_string());"));
    assert!(text.contains("let obj = try!(i32::from_str(try!(characters(stack)).as_ref())"));
    let text = Ec2Generator.generate_support_types("Blob", &primitive(ShapeType::Blob), &s).unwrap();
    assert!(text.contains("params.put(name, from_utf8(obj).unwrap());"));
    assert!(text.contains("let obj = try!(characters(stack)).into_bytes();"));
    let empty = structure(vec![], &[]);
    let text = Ec2Generator.generate_support_types("Marker", &empty, &s).unwrap();
    assert!(text.contains("fn serialize(_params: &mut Params, name: &str, _obj: &Marker)"));
    assert!(text.contains("stack.next();\nlet obj = Marker::default();"));
}

#[test]
fn query_tests_cover_own_recorded_responses() {
    let s = ec2_service();
    let responses = vec![
        Response { service: "AmazonEC2".to_string(), action: "CreateSnapshot".to_string(), file_name: "ec2-create-snapshot.xml".to_string() },
        Response { service: "S3".to_string(), action: "CreateSnapshot".to_string(), file_name: "s3.xml".to_string() },
        Response { service: "AmazonEC2".to_string(), action: "Missing".to_string(), file_name: "missing.xml".to_string() },
        Response { service: "AmazonEC2".to_string(), action: "DescribeRegions".to_string(), file_name: "ec2-describe-regions.xml".to_string() },
    ];
    let text = Ec2Generator.generate_tests(&s, &responses).unwrap();
    assert_eq!(text.matches("#[test]").count(), 2);
    assert!(text.contains("MockResponseReader::read_response(\"ec2-create-snapshot.xml\")"));
    assert!(text.contains("let request = CreateSnapshotRequest::default();\n    let result = client.create_snapshot(&request);"));
    assert!(text.contains("let result = client.describe_regions();"));
    assert!(text.contains("AmazonEC2Client::with_request_dispatcher"));
    assert!(!text.contains("s3.xml"));
    assert!(RestXmlGenerator.generate_tests(&s, &responses).is_none());
}

#[test]
fn fixed_protocol_texts() {
    let s = ec2_service();
    assert_eq!(Ec2Generator.generate_struct_attributes("X"), "#[derive(Debug, Default, Clone)]");
    assert_eq!(RestXmlGenerator.generate_struct_attributes("X"), "#[derive(Debug, Default)]");
    assert_eq!(Ec2Generator.timestamp_type(), "String");
    assert_eq!(RestXmlGenerator.timestamp_type(), "String");
    assert!(Ec2Generator.generate_prelude(&s).contains("enum DeserializerNext {"));
    assert!(RestXmlGenerator.generate_prelude(&s).contains("use std::collections::HashMap;"));
}

#[test]
fn rest_methods_bind_uri_and_headers() {
    let text = RestXmlGenerator.generate_methods(&s3_service());
    assert!(text.contains("let mut request_uri = \"/{Bucket}/{Key}\".to_string();"));
    assert!(text.contains("request_uri = request_uri.replace(\"{Bucket}\", &input.bucket);"));
    assert!(text.contains("request_uri = request_uri.replace(\"{Key}\", &input.key);"));
    assert!(text.contains("request.add_header(\"Range\", &input.range);"));
    assert!(text.contains("if let Some(ref if_match) = input.if_match {\n    request.add_header(\"If-Match\", &if_match.to_string());\n}"));
    assert!(!text.contains("versionId"));
    assert!(text.contains("ListBucketsOutputDeserializer::deserialize(\"ListAllMyBucketsResult\", &mut stack)"));
    assert!(text.contains("Ok(ListBucketsOutput::default())"));
    assert!(text.contains("params.put(\"Action\", \"ListBuckets\");"));
}

#[test]
fn uri_placeholders_take_field_values() {
    let text = RestXmlGenerator.generate_methods(&s3_service());
    assert!(text.contains("request_uri = request_uri.replace(\"{Key}\", input.key.as_ref().unwrap());"));
    let template = replace_all("/{Bucket}/{Key+}", "+", "");
    let path = replace_all(&template, "{Bucket}", "bucket");
    let path = replace_all(&path, "{Key}", "key");
    assert_eq!(path, "/bucket/key");
    assert_eq!(replace_all("aXbXc", "X", "--"), "a--b--c");
}

#[test]
fn rest_payloads() {
    let text = RestXmlGenerator.generate_methods(&s3_service());
    assert!(text.contains("payload = input.body.clone();"));
    assert!(text.contains(
        "payload = Some(AccessControlPolicySerializer::serialize(\"AccessControlPolicy\", &input.access_control_policy).into_bytes());"
    ));
}

#[test]
fn rest_support_units() {
    let s = s3_service();
    let shape = structure(vec![("Days", member("Days")), ("Tier", member("Tier"))], &["Days"]);
    assert!(RestXmlGenerator.generate_support_types("GetObjectRequest", &shape, &s).is_none());
    let restore = RestXmlGenerator.generate_support_types("RestoreRequest", &shape, &s).unwrap();
    assert!(restore.contains("struct RestoreRequestDeserializer;"));
    assert!(restore.contains("struct RestoreRequestSerializer;"));
    assert!(restore.contains("out.push_str(&DaysSerializer::serialize(\"Days\", &obj.days));"));
    assert!(restore.contains("if let Some(ref value) = obj.tier {\n    out.push_str(&TierSerializer::serialize(\"Tier\", value));\n}"));
    let output = RestXmlGenerator.generate_support_types("ListBucketsOutput", &shape, &s).unwrap();
    assert!(!output.contains("Serializer;"));
    let errors = list_of(member("Error"));
    let text = RestXmlGenerator.generate_support_types("Errors", &errors, &s).unwrap();
    assert!(text.contains("obj.push(try!(S3ErrorDeserializer::deserialize(\"Error\", stack)));"));
    let map = Shape {
        key: Some(Member { location_name: Some("Key".to_string()), ..member("MetadataKey") }),
        value: Some(member("MetadataValue")),
        ..primitive(ShapeType::Mapping)
    };
    let text = RestXmlGenerator.generate_support_types("Metadata", &map, &s).unwrap();
    assert!(text.contains("while try!(peek_at_name(stack)) == tag_name {"));
    assert!(text.contains("let key = try!(MetadataKeyDeserializer::deserialize(\"Key\", stack));"));
    assert!(text.contains("let value = try!(MetadataValueDeserializer::deserialize(\"MetadataValue\", stack));"));
    let text = RestXmlGenerator.generate_support_types("Name", &primitive(ShapeType::String), &s).unwrap();
    assert!(text.contains("format!(\"<{}>{}</{}>\", name, xml_escape(obj), name)"));
}

#[test]
fn fixture_names_give_service_and_action() {
    let r = Response::from_file_name("AmazonEC2-DescribeInstances.xml").unwrap();
    assert_eq!(r.service, "AmazonEC2");
    assert_eq!(r.action, "DescribeInstances");
    assert_eq!(r.file_name, "AmazonEC2-DescribeInstances.xml");
    let r = Response::from_file_name("S3-List-Buckets.xml").unwrap();
    assert_eq!(r.service, "S3");
    assert_eq!(r.action, "List-Buckets");
    assert!(Response::from_file_name("README.md").is_none());
    assert!(Response::from_file_name("nodash.xml").is_none());
    assert!(Response::from_file_name("x-.xml").unwrap().action.is_empty());
}

#[test]
fn well_formedness_checks() {
    assert!(s3_service().is_well_formed());
    let broken = service(vec![operation("Get", Some("Missing"), None, "/")], vec![]);
    assert!(!broken.is_well_formed());
    let list = Shape { member: None, ..primitive(ShapeType::List) };
    assert!(!list.is_well_formed());
    let payload = Shape { payload: Some("Body".to_string()), ..structure(vec![], &[]) };
    assert!(!payload.is_well_formed());
    let map = Shape { key: Some(member("K")), value: Some(member("V")), ..primitive(ShapeType::Mapping) };
    assert!(!Ec2Generator.supports_shape("Tags", &map));
    assert!(Ec2Generator.supports_shape("TagsRequest", &map));
    assert!(RestXmlGenerator.supports_shape("Tags", &map));
}
