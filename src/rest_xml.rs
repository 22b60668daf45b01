//! The REST protocol: fields travel in the URI, in headers, or as the body,
//! and responses come back as XML.

use vstd::prelude::*;
use crate::botocore::{
    lemma_found_shape_wf, find_member, find_shape, located_at, member_tag, Operation, Service, Shape, ShapeType,
    StructureMember,
};
use crate::generator::{
    field_name, generate_field_name, is_primitive, conventional_response_tag, conventional_tag, documentation_text, generate_documentation,
    generate_list_deserializer, generate_method_signature, generate_primitive_deserializer,
    generate_struct_deserializer, list_deserializer_text, method_signature_text,
    primitive_deserializer_text, snake_case_of, struct_deserializer_text, to_snake_case,
    GenerateProtocol, Response, BODY_OPEN, DESERIALIZER_IMPL, DESERIALIZER_OPEN,
    DESERIALIZER_RESULT, UNIT_CLOSE,
};
use crate::quirks::{
    is_listed, lookup, lookup_tag, rest_xml_root_tags, rest_xml_root_tags_spec,
    rest_xml_type_renames, rest_xml_type_renames_spec, rest_xml_xml_requests,
    rest_xml_xml_requests_spec,
};
use crate::text::{
    ends_with, filter_map_seq, join, join_strings, lemma_views_push, opt_view, replace_all,
    replaced, str_ends_with, str_eq, views,
};

verus! {

/// Generates clients for services that speak the REST protocol with XML bodies.
pub struct RestXmlGenerator;

/// The input shape of an operation, where it has one that the service holds.
pub open spec fn input_shape_of(service: Service, op: Operation) -> Option<Shape> {
    match op.input {
        Some(i) => find_shape(service.shapes@, i.shape@),
        None => None,
    }
}

fn get_input_shape<'a>(service: &'a Service, operation: &Operation) -> (r: Option<&'a Shape>)
    ensures
        match r {
            Some(s) => input_shape_of(*service, *operation) == Some(*s),
            None => input_shape_of(*service, *operation) is None,
        },
{
    match &operation.input {
        Some(i) => service.get_shape(i.shape.as_str()),
        None => None,
    }
}

/// How the payload member becomes the request body. A streaming member's
/// bytes are the body as they are; any other member is serialized as XML,
/// where it is present.
pub open spec fn payload_serialization_text(shape: Shape) -> Seq<char> {
    let p = shape.payload->0@;
    let m = find_member(shape.members@, p)->0;
    let field = snake_case_of(p);
    if m.streaming {
        if shape.is_required(p) {
            "payload = Some(input."@ + field + ".clone());"@
        } else {
            "payload = input."@ + field + ".clone();"@
        }
    } else if shape.is_required(p) {
        "payload = Some("@ + m.shape@ + "Serializer::serialize(\""@ + m.shape@ + "\", &input."@
            + field + ").into_bytes());"@
    } else {
        "if input."@ + field + ".is_some() {\n    payload = Some("@ + m.shape@
            + "Serializer::serialize(\""@ + m.shape@ + "\", input."@ + field
            + ".as_ref().unwrap()).into_bytes());\n}"@
    }
}

fn generate_payload_serialization(shape: &Shape) -> (r: String)
    requires
        shape.wf(),
        shape.payload is Some,
    ensures
        r@ == payload_serialization_text(*shape),
{
    let payload_field = match &shape.payload {
        Some(p) => p.as_str(),
        None => "",
    };
    let payload_member = match shape.get_member(payload_field) {
        Some(m) => m,
        None => return String::new(),
    };
    let field = to_snake_case(payload_field);
    if payload_member.streaming() {
        if shape.required(payload_field) {
            String::from_str("payload = Some(input.").concat(field.as_str()).concat(".clone());")
        } else {
            String::from_str("payload = input.").concat(field.as_str()).concat(".clone();")
        }
    } else if shape.required(payload_field) {
        String::from_str("payload = Some(").concat(payload_member.shape.as_str()).concat(
            "Serializer::serialize(\"",
        ).concat(payload_member.shape.as_str()).concat("\", &input.").concat(field.as_str()).concat(
            ").into_bytes());",
        )
    } else {
        String::from_str("if input.").concat(field.as_str()).concat(
            ".is_some() {\n    payload = Some(",
        ).concat(payload_member.shape.as_str()).concat("Serializer::serialize(\"").concat(
            payload_member.shape.as_str(),
        ).concat("\", input.").concat(field.as_str()).concat(
            ".as_ref().unwrap()).into_bytes());\n}",
        )
    }
}

/// The body set up from the input, where the operation has one: from the
/// payload member where the input shape names one, else nothing.
pub open spec fn input_serialization_text(service: Service, op: Operation) -> Option<Seq<char>> {
    match input_shape_of(service, op) {
        Some(shape) => Some(
            if shape.payload is Some {
                payload_serialization_text(shape)
            } else {
                Seq::empty()
            },
        ),
        None => None,
    }
}

fn generate_method_input_serialization(service: &Service, operation: &Operation) -> (r: Option<String>)
    requires
        service.wf(),
        operation.input is Some ==> find_shape(service.shapes@, operation.input->0.shape@) is Some,
    ensures
        opt_view(r) == input_serialization_text(*service, *operation),
{
    let input_shape = match get_input_shape(service, operation) {
        Some(s) => s,
        None => return None,
    };
    proof {
        lemma_found_shape_wf(service.shapes@, operation.input->0.shape@);
    }
    if input_shape.payload.is_some() {
        Some(generate_payload_serialization(input_shape))
    } else {
        Some(String::new())
    }
}

/// The statement that puts a URI-bound member's value in place of its
/// `{placeholder}`. An optional member is unwrapped: the generated call
/// fails where it is absent.
pub open spec fn uri_line(shape: Shape, sm: StructureMember) -> Option<Seq<char>> {
    let tag = member_tag(sm.name@, sm.member);
    let field = snake_case_of(sm.name@);
    if !located_at(sm.member, "uri"@) {
        None
    } else if shape.is_required(sm.name@) {
        Some("request_uri = request_uri.replace(\"{"@ + tag + "}\", &input."@ + field + ");"@)
    } else {
        Some(
            "request_uri = request_uri.replace(\"{"@ + tag + "}\", input."@ + field
                + ".as_ref().unwrap());"@,
        )
    }
}

pub open spec fn uri_line_fn(shape: Shape) -> spec_fn(StructureMember) -> Option<Seq<char>> {
    |sm: StructureMember| uri_line(shape, sm)
}

pub open spec fn uri_modification_text(service: Service, op: Operation) -> Option<Seq<char>> {
    match input_shape_of(service, op) {
        Some(shape) => Some(join(filter_map_seq(shape.members@, uri_line_fn(shape)), "\n"@)),
        None => None,
    }
}

fn generate_uri_modification(service: &Service, operation: &Operation) -> (r: Option<String>)
    ensures
        opt_view(r) == uri_modification_text(*service, *operation),
{
    let shape = match get_input_shape(service, operation) {
        Some(s) => s,
        None => return None,
    };
    let ghost f = uri_line_fn(*shape);
    let mut lines: Vec<String> = Vec::new();
    let mut i: usize = 0;
    while i < shape.members.len()
        invariant
            0 <= i <= shape.members.len(),
            f == uri_line_fn(*shape),
            views(lines@) == filter_map_seq(shape.members@.take(i as int), f),
        decreases shape.members.len() - i,
    {
        let sm = &shape.members[i];
        proof {
            assert(shape.members@.take(i + 1).drop_last() =~= shape.members@.take(i as int));
            assert(shape.members@.take(i + 1).last() == *sm);
        }
        let at_uri = match &sm.member.location {
            Some(l) => str_eq(l.as_str(), "uri"),
            None => false,
        };
        if at_uri {
            let tag = match &sm.member.location_name {
                Some(l) => l.as_str(),
                None => sm.name.as_str(),
            };
            let field = to_snake_case(sm.name.as_str());
            let line = if shape.required(sm.name.as_str()) {
                String::from_str("request_uri = request_uri.replace(\"{").concat(tag).concat(
                    "}\", &input.",
                ).concat(field.as_str()).concat(");")
            } else {
                String::from_str("request_uri = request_uri.replace(\"{").concat(tag).concat(
                    "}\", input.",
                ).concat(field.as_str()).concat(".as_ref().unwrap());")
            };
            proof {
                lemma_views_push(lines@, line);
            }
            lines.push(line);
        }
        i += 1;
    }
    assert(shape.members@.take(shape.members.len() as int) =~= shape.members@);
    Some(join_strings(&lines, "\n"))
}

/// The statement that adds a header-bound member as a header: always where
/// it is required, where it is present where it is optional.
pub open spec fn header_line(shape: Shape, sm: StructureMember) -> Option<Seq<char>> {
    let tag = member_tag(sm.name@, sm.member);
    let field = snake_case_of(sm.name@);
    if !located_at(sm.member, "header"@) {
        None
    } else if shape.is_required(sm.name@) {
        Some("request.add_header(\""@ + tag + "\", &input."@ + field + ");"@)
    } else {
        Some(
            "if let Some(ref "@ + field + ") = input."@ + field + " {\n    request.add_header(\""@
                + tag + "\", &"@ + field + ".to_string());\n}"@,
        )
    }
}

pub open spec fn header_line_fn(shape: Shape) -> spec_fn(StructureMember) -> Option<Seq<char>> {
    |sm: StructureMember| header_line(shape, sm)
}

pub open spec fn headers_text(service: Service, op: Operation) -> Option<Seq<char>> {
    match input_shape_of(service, op) {
        Some(shape) => Some(join(filter_map_seq(shape.members@, header_line_fn(shape)), "\n"@)),
        None => None,
    }
}

fn generate_headers(service: &Service, operation: &Operation) -> (r: Option<String>)
    ensures
        opt_view(r) == headers_text(*service, *operation),
{
    let shape = match get_input_shape(service, operation) {
        Some(s) => s,
        None => return None,
    };
    let ghost f = header_line_fn(*shape);
    let mut lines: Vec<String> = Vec::new();
    let mut i: usize = 0;
    while i < shape.members.len()
        invariant
            0 <= i <= shape.members.len(),
            f == header_line_fn(*shape),
            views(lines@) == filter_map_seq(shape.members@.take(i as int), f),
        decreases shape.members.len() - i,
    {
        let sm = &shape.members[i];
        proof {
            assert(shape.members@.take(i + 1).drop_last() =~= shape.members@.take(i as int));
            assert(shape.members@.take(i + 1).last() == *sm);
        }
        let at_header = match &sm.member.location {
            Some(l) => str_eq(l.as_str(), "header"),
            None => false,
        };
        if at_header {
            let tag = match &sm.member.location_name {
                Some(l) => l.as_str(),
                None => sm.name.as_str(),
            };
            let field = to_snake_case(sm.name.as_str());
            let line = if shape.required(sm.name.as_str()) {
                String::from_str("request.add_header(\"").concat(tag).concat("\", &input.").concat(
                    field.as_str(),
                ).concat(");")
            } else {
                String::from_str("if let Some(ref ").concat(field.as_str()).concat(
                    ") = input.",
                ).concat(field.as_str()).concat(" {\n    request.add_header(\"").concat(
                    tag,
                ).concat("\", &").concat(field.as_str()).concat(".to_string());\n}")
            };
            proof {
                lemma_views_push(lines@, line);
            }
            lines.push(line);
        }
        i += 1;
    }
    assert(shape.members@.take(shape.members.len() as int) =~= shape.members@);
    Some(join_strings(&lines, "\n"))
}

/// The root tag of a response: the common convention for names ending in
/// "Result", else the listed exception, else the name itself.
pub open spec fn response_tag_name(output_type: Seq<char>) -> Seq<char> {
    if ends_with(output_type, "Result"@) {
        conventional_tag(output_type)
    } else {
        match lookup(rest_xml_root_tags_spec(), output_type) {
            Some(t) => t,
            None => output_type,
        }
    }
}

pub fn generate_response_tag_name(member_name: &str) -> (r: String)
    ensures
        r@ == response_tag_name(member_name@),
{
    match conventional_response_tag(member_name) {
        Some(t) => t,
        None => match lookup_tag(&rest_xml_root_tags(), member_name) {
            Some(t) => t,
            None => String::from_str(member_name),
        },
    }
}

pub open spec fn return_value_text(op: Operation) -> Seq<char> {
    match op.output {
        Some(o) => "Ok(try!("@ + o.shape@ + "Deserializer::deserialize(\""@ + response_tag_name(
            o.shape@,
        ) + "\", &mut stack)))"@,
        None => "Ok(())"@,
    }
}

fn generate_method_return_value(operation: &Operation) -> (r: String)
    ensures
        r@ == return_value_text(*operation),
{
    match &operation.output {
        Some(o) => String::from_str("Ok(try!(").concat(o.shape.as_str()).concat(
            "Deserializer::deserialize(\"",
        ).concat(generate_response_tag_name(o.shape.as_str()).as_str()).concat(
            "\", &mut stack)))",
        ),
        None => String::from_str("Ok(())"),
    }
}

/// What a method returns for a successful response without a body.
pub open spec fn default_output_text(op: Operation) -> Seq<char> {
    match op.output {
        Some(o) => "Ok("@ + o.shape@ + "::default())"@,
        None => "Ok(())"@,
    }
}

fn generate_default_output(operation: &Operation) -> (r: String)
    ensures
        r@ == default_output_text(*operation),
{
    match &operation.output {
        Some(o) => String::from_str("Ok(").concat(o.shape.as_str()).concat("::default())"),
        None => String::from_str("Ok(())"),
    }
}

pub open spec fn or_empty(t: Option<Seq<char>>) -> Seq<char> {
    match t {
        Some(s) => s,
        None => Seq::empty(),
    }
}

fn unwrap_or_empty(t: Option<String>) -> (r: String)
    ensures
        r@ == or_empty(opt_view(t)),
{
    match t {
        Some(s) => s,
        None => String::new(),
    }
}

pub const METHOD_OPEN: &'static str = "
#[allow(unused_variables, warnings)]
";

pub const PARAMS_OPEN: &'static str = " {
    let mut params = Params::new();
    params.put(\"Action\", \"";

pub const PAYLOAD_DECLARATION: &'static str = "\");
    let mut payload: Option<Vec<u8>> = None;
    ";

pub const URI_OPEN: &'static str = "
    let mut request_uri = \"";

pub const URI_CLOSE: &'static str = "\".to_string();
    ";

pub const REQUEST_OPEN: &'static str = "
    let mut request = SignedRequest::new(\"";

pub const QUOTE_COMMA_QUOTE: &'static str = "\", \"";

pub const REGION_URI: &'static str = "\", self.region, &request_uri);
    ";

pub const DISPATCH: &'static str = "
    if payload.is_some() {
        request.set_payload(Some(payload.as_ref().unwrap().as_slice()));
    }
    request.set_params(params);
    request.sign(&try!(self.credentials_provider.credentials()));
    let result = try!(self.dispatcher.dispatch(&request));
    match result.status {
        200 => {
            if !result.body.is_empty() {
                let mut reader = EventReader::from_str(&result.body);
                let mut stack = XmlResponse::new(reader.events().peekable());
                stack.next();
                ";

pub const EMPTY_BODY: &'static str = "
            } else {
                ";

pub const ERROR_OPEN: &'static str = "
            }
        },
        _ => Err(";

pub const METHOD_CLOSE: &'static str = "::from_body(&result.body)),
    }
}
";

/// The client method of one operation. The URI template loses its `+`
/// marks before placeholders are put in place.
pub open spec fn method_text(service: Service, op: Operation) -> Seq<char> {
    documentation_text(op) + METHOD_OPEN@ + method_signature_text(op) + PARAMS_OPEN@ + op.name@
        + PAYLOAD_DECLARATION@ + or_empty(input_serialization_text(service, op)) + URI_OPEN@
        + replaced(op.http.request_uri@, "+"@, ""@) + URI_CLOSE@ + or_empty(
        uri_modification_text(service, op),
    ) + REQUEST_OPEN@ + op.http.method@ + QUOTE_COMMA_QUOTE@ + service.metadata.endpoint_prefix@
        + REGION_URI@ + or_empty(headers_text(service, op)) + DISPATCH@ + return_value_text(op)
        + EMPTY_BODY@ + default_output_text(op) + ERROR_OPEN@ + op.error_type_name_spec()
        + METHOD_CLOSE@
}

pub open spec fn method_fn(service: Service) -> spec_fn(Operation) -> Seq<char> {
    |op: Operation| method_text(service, op)
}

fn generate_method(service: &Service, operation: &Operation) -> (r: String)
    requires
        service.wf(),
        operation.input is Some ==> find_shape(service.shapes@, operation.input->0.shape@) is Some,
    ensures
        r@ == method_text(*service, *operation),
{
    proof {
        reveal_strlit("+");
    }
    let uri = replace_all(operation.http.request_uri.as_str(), "+", "");
    generate_documentation(operation).concat(METHOD_OPEN).concat(
        generate_method_signature(operation).as_str(),
    ).concat(PARAMS_OPEN).concat(operation.name.as_str()).concat(PAYLOAD_DECLARATION).concat(
        unwrap_or_empty(generate_method_input_serialization(service, operation)).as_str(),
    ).concat(URI_OPEN).concat(uri.as_str()).concat(URI_CLOSE).concat(
        unwrap_or_empty(generate_uri_modification(service, operation)).as_str(),
    ).concat(REQUEST_OPEN).concat(operation.http.method.as_str()).concat(QUOTE_COMMA_QUOTE).concat(
        service.metadata.endpoint_prefix.as_str(),
    ).concat(REGION_URI).concat(unwrap_or_empty(generate_headers(service, operation)).as_str()).concat(
        DISPATCH,
    ).concat(generate_method_return_value(operation).as_str()).concat(EMPTY_BODY).concat(
        generate_default_output(operation).as_str(),
    ).concat(ERROR_OPEN).concat(operation.error_type_name().as_str()).concat(METHOD_CLOSE)
}

pub open spec fn methods_text(service: Service) -> Seq<char> {
    join(service.operations@.map_values(method_fn(service)), "\n"@)
}

fn generate_methods(service: &Service) -> (r: String)
    requires
        service.wf(),
    ensures
        r@ == methods_text(*service),
{
    let ghost f = method_fn(*service);
    let mut parts: Vec<String> = Vec::new();
    let mut i: usize = 0;
    while i < service.operations.len()
        invariant
            0 <= i <= service.operations.len(),
            service.wf(),
            f == method_fn(*service),
            views(parts@) == service.operations@.take(i as int).map_values(f),
        decreases service.operations.len() - i,
    {
        let operation = &service.operations[i];
        assert(service.operations[i as int] == *operation);
        let m = generate_method(service, operation);
        proof {
            lemma_views_push(parts@, m);
            assert(service.operations@.take(i + 1).map_values(f) =~= service.operations@.take(
                i as int,
            ).map_values(f).push(m@));
        }
        parts.push(m);
        i += 1;
    }
    assert(service.operations@.take(service.operations.len() as int) =~= service.operations@);
    join_strings(&parts, "\n")
}

/// The type that deserializes list elements: the element shape's name, or
/// its listed rename.
pub open spec fn element_type_name(shape: Shape) -> Seq<char> {
    match lookup(rest_xml_type_renames_spec(), shape.member->0.shape@) {
        Some(t) => t,
        None => shape.member->0.shape@,
    }
}

fn generate_member_name(shape: &Shape) -> (r: String)
    requires
        shape.member is Some,
    ensures
        r@ == element_type_name(*shape),
{
    match lookup_tag(&rest_xml_type_renames(), shape.member()) {
        Some(t) => t,
        None => String::from_str(shape.member()),
    }
}

pub const MAP_OPEN: &'static str = "let mut obj = HashMap::new();
while try!(peek_at_name(stack)) == tag_name {
    try!(start_element(tag_name, stack));
    let key = try!(";

pub const MAP_VALUE: &'static str = "\", stack));
    let value = try!(";

pub const MAP_CLOSE: &'static str = "\", stack));
    obj.insert(key, value);
    try!(end_element(tag_name, stack));
}
Ok(obj)";

/// A map deserializer: each entry is an element with the map's tag holding
/// the key and then the value; a later key replaces an earlier one.
pub open spec fn map_deserializer_text(shape: Shape) -> Seq<char> {
    let k = shape.key->0;
    let v = shape.value->0;
    MAP_OPEN@ + k.shape@ + "Deserializer::deserialize(\""@ + k.tag_name_spec() + MAP_VALUE@
        + v.shape@ + "Deserializer::deserialize(\""@ + v.tag_name_spec() + MAP_CLOSE@
}

fn generate_map_deserializer(shape: &Shape) -> (r: String)
    requires
        shape.key is Some,
        shape.value is Some,
    ensures
        r@ == map_deserializer_text(*shape),
{
    let (key, value) = match (&shape.key, &shape.value) {
        (Some(k), Some(v)) => (k, v),
        _ => return String::new(),
    };
    String::from_str(MAP_OPEN).concat(key.shape.as_str()).concat("Deserializer::deserialize(\"").concat(
        key.tag_name().as_str(),
    ).concat(MAP_VALUE).concat(value.shape.as_str()).concat("Deserializer::deserialize(\"").concat(
        value.tag_name().as_str(),
    ).concat(MAP_CLOSE)
}

pub open spec fn deserializer_body_text(name: Seq<char>, shape: Shape) -> Seq<char> {
    match shape.shape_type {
        ShapeType::List => list_deserializer_text(
            shape.member->0.tag_name_spec(),
            element_type_name(shape),
        ),
        ShapeType::Mapping => map_deserializer_text(shape),
        ShapeType::Structure => struct_deserializer_text(name, shape),
        _ => primitive_deserializer_text(shape.shape_type),
    }
}

fn generate_deserializer_body(name: &str, shape: &Shape) -> (r: String)
    requires
        shape.wf(),
    ensures
        r@ == deserializer_body_text(name@, *shape),
{
    match shape.shape_type {
        ShapeType::List => generate_list_deserializer(shape, generate_member_name(shape).as_str()),
        ShapeType::Mapping => generate_map_deserializer(shape),
        ShapeType::Structure => generate_struct_deserializer(name, shape),
        _ => generate_primitive_deserializer(shape),
    }
}

pub const ELEMENT_TEXT: &'static str = "format!(\"<{}>{}</{}>\", name, ";

/// The text of a primitive value inside its element: text kinds and binary
/// data escaped, numbers and booleans in their canonical text.
pub open spec fn primitive_content_text(t: ShapeType) -> Seq<char> {
    match t {
        ShapeType::Integer | ShapeType::Long | ShapeType::Float | ShapeType::Double
        | ShapeType::Boolean => "obj"@,
        ShapeType::Blob => "xml_escape(from_utf8(obj).unwrap())"@,
        _ => "xml_escape(obj)"@,
    }
}

/// A primitive serializer: the value as the content of an element named
/// as the caller asks.
pub open spec fn primitive_serializer_text(t: ShapeType) -> Seq<char> {
    ELEMENT_TEXT@ + primitive_content_text(t) + ", name)"@
}

fn generate_primitive_serializer(shape: &Shape) -> (r: String)
    requires
        is_primitive(shape.shape_type),
    ensures
        r@ == primitive_serializer_text(shape.shape_type),
{
    let content = match shape.shape_type {
        ShapeType::Integer | ShapeType::Long | ShapeType::Float | ShapeType::Double
        | ShapeType::Boolean => "obj",
        ShapeType::Blob => "xml_escape(from_utf8(obj).unwrap())",
        _ => "xml_escape(obj)",
    };
    String::from_str(ELEMENT_TEXT).concat(content).concat(", name)")
}

pub const OPEN_ELEMENT: &'static str = "let mut out = format!(\"<{}>\", name);
";

pub const CLOSE_ELEMENT: &'static str = "
out.push_str(&format!(\"</{}>\", name));
out";

pub const LIST_ELEMENTS: &'static str = "for element in obj.iter() {
    out.push_str(&";

pub const SERIALIZE_AT: &'static str = "Serializer::serialize(\"";

pub const LIST_ELEMENT_CLOSE: &'static str = "\", element));
}";

/// A list serializer: the list's element holding one element per item,
/// each with the tag that the list deserializer reads.
pub open spec fn list_serializer_text(shape: Shape) -> Seq<char> {
    OPEN_ELEMENT@ + LIST_ELEMENTS@ + shape.member->0.shape@ + SERIALIZE_AT@
        + shape.member->0.tag_name_spec() + LIST_ELEMENT_CLOSE@ + CLOSE_ELEMENT@
}

fn generate_list_serializer(shape: &Shape) -> (r: String)
    requires
        shape.member is Some,
    ensures
        r@ == list_serializer_text(*shape),
{
    let tag = match &shape.member {
        Some(m) => m.tag_name(),
        None => String::new(),
    };
    String::from_str(OPEN_ELEMENT).concat(LIST_ELEMENTS).concat(shape.member()).concat(
        SERIALIZE_AT,
    ).concat(tag.as_str()).concat(LIST_ELEMENT_CLOSE).concat(CLOSE_ELEMENT)
}

pub const MAP_ENTRIES: &'static str = "let mut out = String::new();
for (key, value) in obj.iter() {
    out.push_str(&format!(\"<{}>\", name));
    out.push_str(&";

pub const MAP_ENTRY_VALUE: &'static str = "\", key));
    out.push_str(&";

pub const MAP_ENTRIES_CLOSE: &'static str = "\", value));
    out.push_str(&format!(\"</{}>\", name));
}
out";

/// A map serializer: one element with the map's tag per entry, holding the
/// key and then the value under the tags that the map deserializer reads.
pub open spec fn map_serializer_text(shape: Shape) -> Seq<char> {
    let k = shape.key->0;
    let v = shape.value->0;
    MAP_ENTRIES@ + k.shape@ + SERIALIZE_AT@ + k.tag_name_spec() + MAP_ENTRY_VALUE@ + v.shape@
        + SERIALIZE_AT@ + v.tag_name_spec() + MAP_ENTRIES_CLOSE@
}

fn generate_map_serializer(shape: &Shape) -> (r: String)
    requires
        shape.key is Some,
        shape.value is Some,
    ensures
        r@ == map_serializer_text(*shape),
{
    let (key, value) = match (&shape.key, &shape.value) {
        (Some(k), Some(v)) => (k, v),
        _ => return String::new(),
    };
    String::from_str(MAP_ENTRIES).concat(key.shape.as_str()).concat(SERIALIZE_AT).concat(
        key.tag_name().as_str(),
    ).concat(MAP_ENTRY_VALUE).concat(value.shape.as_str()).concat(SERIALIZE_AT).concat(
        value.tag_name().as_str(),
    ).concat(MAP_ENTRIES_CLOSE)
}

pub const OPTIONAL_FIELD_OPEN: &'static str = "if let Some(ref value) = obj.";

pub const OPTIONAL_FIELD_PUSH: &'static str = " {
    out.push_str(&";

pub const OPTIONAL_FIELD_CLOSE: &'static str = "\", value));
}";

/// The serialization of one structure member under the wire name that the
/// structure deserializer dispatches on: always where it is required, where
/// present where it is optional; deprecated members get none.
pub open spec fn field_serializer_line(shape: Shape, sm: StructureMember) -> Option<Seq<char>> {
    let tag = member_tag(sm.name@, sm.member);
    let field = field_name(sm.name@);
    if sm.member.deprecated {
        None
    } else if shape.is_required(sm.name@) {
        Some(
            "out.push_str(&"@ + sm.member.shape@ + SERIALIZE_AT@ + tag + "\", &obj."@ + field
                + "));"@,
        )
    } else {
        Some(
            OPTIONAL_FIELD_OPEN@ + field + OPTIONAL_FIELD_PUSH@ + sm.member.shape@ + SERIALIZE_AT@
                + tag + OPTIONAL_FIELD_CLOSE@,
        )
    }
}

pub open spec fn field_serializer_fn(shape: Shape) -> spec_fn(StructureMember) -> Option<Seq<char>> {
    |sm: StructureMember| field_serializer_line(shape, sm)
}

/// A structure serializer: the structure's element holding its members.
pub open spec fn struct_serializer_text(shape: Shape) -> Seq<char> {
    OPEN_ELEMENT@ + join(filter_map_seq(shape.members@, field_serializer_fn(shape)), "\n"@)
        + CLOSE_ELEMENT@
}

fn generate_struct_serializer(shape: &Shape) -> (r: String)
    ensures
        r@ == struct_serializer_text(*shape),
{
    let ghost f = field_serializer_fn(*shape);
    let mut lines: Vec<String> = Vec::new();
    let mut i: usize = 0;
    while i < shape.members.len()
        invariant
            0 <= i <= shape.members.len(),
            f == field_serializer_fn(*shape),
            views(lines@) == filter_map_seq(shape.members@.take(i as int), f),
        decreases shape.members.len() - i,
    {
        let sm = &shape.members[i];
        proof {
            assert(shape.members@.take(i + 1).drop_last() =~= shape.members@.take(i as int));
            assert(shape.members@.take(i + 1).last() == *sm);
        }
        if !sm.member.deprecated() {
            let tag = match &sm.member.location_name {
                Some(l) => l.as_str(),
                None => sm.name.as_str(),
            };
            let field = generate_field_name(sm.name.as_str());
            let line = if shape.required(sm.name.as_str()) {
                String::from_str("out.push_str(&").concat(sm.member.shape.as_str()).concat(
                    SERIALIZE_AT,
                ).concat(tag).concat("\", &obj.").concat(field.as_str()).concat("));")
            } else {
                String::from_str(OPTIONAL_FIELD_OPEN).concat(field.as_str()).concat(
                    OPTIONAL_FIELD_PUSH,
                ).concat(sm.member.shape.as_str()).concat(SERIALIZE_AT).concat(tag).concat(
                    OPTIONAL_FIELD_CLOSE,
                )
            };
            proof {
                lemma_views_push(lines@, line);
            }
            lines.push(line);
        }
        i += 1;
    }
    assert(shape.members@.take(shape.members.len() as int) =~= shape.members@);
    String::from_str(OPEN_ELEMENT).concat(join_strings(&lines, "\n").as_str()).concat(CLOSE_ELEMENT)
}

pub open spec fn serializer_body_text(shape: Shape) -> Seq<char> {
    match shape.shape_type {
        ShapeType::List => list_serializer_text(shape),
        ShapeType::Mapping => map_serializer_text(shape),
        ShapeType::Structure => struct_serializer_text(shape),
        _ => primitive_serializer_text(shape.shape_type),
    }
}

fn generate_serializer_body(shape: &Shape) -> (r: String)
    requires
        shape.wf(),
    ensures
        r@ == serializer_body_text(*shape),
{
    match shape.shape_type {
        ShapeType::List => generate_list_serializer(shape),
        ShapeType::Mapping => generate_map_serializer(shape),
        ShapeType::Structure => generate_struct_serializer(shape),
        _ => generate_primitive_serializer(shape),
    }
}

pub open spec fn serializer_signature_text(name: Seq<char>) -> Seq<char> {
    "fn serialize(name: &str, obj: &"@ + name + ") -> String"@
}

fn generate_serializer_signature(name: &str) -> (r: String)
    ensures
        r@ == serializer_signature_text(name@),
{
    String::from_str("fn serialize(name: &str, obj: &").concat(name).concat(") -> String")
}

/// Shapes named like requests get no XML units, but for the listed ones
/// that travel as XML.
pub open spec fn has_xml_units(name: Seq<char>) -> bool {
    !ends_with(name, "Request"@) || rest_xml_xml_requests_spec().contains(name)
}

pub open spec fn deserializer_unit_text(name: Seq<char>, shape: Shape) -> Seq<char> {
    "\nstruct "@ + name + DESERIALIZER_IMPL@ + name + DESERIALIZER_OPEN@ + name
        + DESERIALIZER_RESULT@ + deserializer_body_text(name, shape) + UNIT_CLOSE@
}

/// Outputs are never sent, so they get no serializer.
pub open spec fn serializer_unit_text(name: Seq<char>, shape: Shape) -> Seq<char> {
    if ends_with(name, "Output"@) {
        Seq::empty()
    } else {
        "\n\nstruct "@ + name + "Serializer;\nimpl "@ + name + "Serializer {\n    "@
            + serializer_signature_text(name) + BODY_OPEN@ + serializer_body_text(shape)
            + UNIT_CLOSE@
    }
}

pub open spec fn support_types_text(name: Seq<char>, shape: Shape) -> Option<Seq<char>> {
    if has_xml_units(name) {
        Some(deserializer_unit_text(name, shape) + serializer_unit_text(name, shape))
    } else {
        None
    }
}

fn generate_support_types(name: &str, shape: &Shape) -> (r: Option<String>)
    requires
        shape.wf(),
    ensures
        opt_view(r) == support_types_text(name@, *shape),
{
    if str_ends_with(name, "Request") && !is_listed(&rest_xml_xml_requests(), name) {
        return None;
    }
    let deserializer = String::from_str("\nstruct ").concat(name).concat(DESERIALIZER_IMPL).concat(
        name,
    ).concat(DESERIALIZER_OPEN).concat(name).concat(DESERIALIZER_RESULT).concat(
        generate_deserializer_body(name, shape).as_str(),
    ).concat(UNIT_CLOSE);
    let serializer = if str_ends_with(name, "Output") {
        String::new()
    } else {
        String::from_str("\n\nstruct ").concat(name).concat("Serializer;\nimpl ").concat(name).concat(
            "Serializer {\n    ",
        ).concat(generate_serializer_signature(name).as_str()).concat(BODY_OPEN).concat(
            generate_serializer_body(shape).as_str(),
        ).concat(UNIT_CLOSE)
    };
    Some(deserializer.concat(serializer.as_str()))
}

pub const PRELUDE: &'static str = "use std::str::{FromStr, from_utf8};
use std::collections::HashMap;

use xml::EventReader;

use param::{Params, ServiceParams};

use signature::SignedRequest;
use xml::reader::events::XmlEvent;
use xmlutil::{Next, Peek, XmlParseError, XmlResponse};
use xmlutil::{peek_at_name, characters, end_element, start_element, skip_tree, xml_escape};
use xmlerror::*;

enum DeserializerNext {
    Close,
    Skip,
    Element(String),
}
";

impl GenerateProtocol for RestXmlGenerator {
    open spec fn methods_text(&self, service: Service) -> Seq<char> {
        methods_text(service)
    }

    open spec fn prelude_text(&self, service: Service) -> Seq<char> {
        PRELUDE@
    }

    open spec fn struct_attributes_text(&self, struct_name: Seq<char>) -> Seq<char> {
        "#[derive(Debug, Default)]"@
    }

    open spec fn supports(&self, name: Seq<char>, shape: Shape) -> bool {
        true
    }

    open spec fn support_types_text(&self, name: Seq<char>, shape: Shape, service: Service) -> Option<
        Seq<char>,
    > {
        support_types_text(name, shape)
    }

    open spec fn timestamp_type_text(&self) -> Seq<char> {
        "String"@
    }

    /// The REST protocol has no recorded-response tests.
    open spec fn tests_text(&self, service: Service, responses: Seq<Response>) -> Option<Seq<char>> {
        None
    }

    fn supports_shape(&self, _name: &str, _shape: &Shape) -> (r: bool) {
        true
    }

    fn generate_methods(&self, service: &Service) -> (r: String) {
        generate_methods(service)
    }

    fn generate_prelude(&self, _service: &Service) -> (r: String) {
        String::from_str(PRELUDE)
    }

    fn generate_struct_attributes(&self, _struct_name: &str) -> (r: String) {
        String::from_str("#[derive(Debug, Default)]")
    }

    fn generate_support_types(&self, name: &str, shape: &Shape, _service: &Service) -> (r: Option<
        String,
    >) {
        generate_support_types(name, shape)
    }

    fn timestamp_type(&self) -> (r: &'static str) {
        "String"
    }

    fn generate_tests(&self, _service: &Service, _responses: &Vec<Response>) -> (r: Option<String>) {
        None
    }
}

proof fn lemma_replaced_without_brace(s: Seq<char>, pat: Seq<char>, to: Seq<char>)
    requires
        pat.len() > 0,
        pat[0] == '{',
        !s.contains('{'),
    ensures
        replaced(s, pat, to) == s,
    decreases s.len(),
{
    if s.len() > 0 {
        assert(s[0] != '{') by {
            assert(s.contains(s[0]) || s[0] != '{');
        }
        if crate::text::occurs_at(s, 0, pat) {
            assert(s.subrange(0, pat.len() as int)[0] == s[0]);
        }
        let tail = s.subrange(1, s.len() as int);
        assert(!tail.contains('{')) by {
            if tail.contains('{') {
                let k = choose|k: int| 0 <= k < tail.len() && tail[k] == '{';
                assert(s[k + 1] == '{');
            }
        }
        lemma_replaced_without_brace(tail, pat, to);
        assert(seq![s[0]] + tail =~= s);
    }
}

proof fn lemma_replaced_after_prefix(p: Seq<char>, x: Seq<char>, pat: Seq<char>, to: Seq<char>)
    requires
        pat.len() > 0,
        pat[0] == '{',
        !p.contains('{'),
    ensures
        replaced(p + x, pat, to) == p + replaced(x, pat, to),
    decreases p.len(),
{
    if p.len() == 0 {
        assert(p + x =~= x);
        assert(p + replaced(x, pat, to) =~= replaced(x, pat, to));
    } else {
        let s = p + x;
        assert(s[0] == p[0]);
        assert(p[0] != '{') by {
            assert(p.contains(p[0]) || p[0] != '{');
        }
        if crate::text::occurs_at(s, 0, pat) {
            assert(s.subrange(0, pat.len() as int)[0] == s[0]);
        }
        let ptail = p.subrange(1, p.len() as int);
        assert(!ptail.contains('{')) by {
            if ptail.contains('{') {
                let k = choose|k: int| 0 <= k < ptail.len() && ptail[k] == '{';
                assert(p[k + 1] == '{');
            }
        }
        assert(s.subrange(1, s.len() as int) =~= ptail + x);
        lemma_replaced_after_prefix(ptail, x, pat, to);
        assert(seq![p[0]] + (ptail + replaced(x, pat, to)) =~= p + replaced(x, pat, to));
    }
}

/// A placeholder in a request path is replaced by the field's value: where
/// the text around `{tag}` holds no other `{`, the path becomes the text
/// before it, the value, and the text after it.
pub proof fn lemma_placeholder_replaced(
    before: Seq<char>,
    tag: Seq<char>,
    after: Seq<char>,
    value: Seq<char>,
)
    requires
        !before.contains('{'),
        !after.contains('{'),
    ensures
        replaced(
            before + seq!['{'] + tag + seq!['}'] + after,
            seq!['{'] + tag + seq!['}'],
            value,
        ) == before + value + after,
{
    let pat = seq!['{'] + tag + seq!['}'];
    assert(pat[0] == '{');
    let rest = pat + after;
    assert(before + seq!['{'] + tag + seq!['}'] + after =~= before + rest);
    lemma_replaced_after_prefix(before, rest, pat, value);
    assert(rest.subrange(0, pat.len() as int) =~= pat);
    assert(rest.subrange(pat.len() as int, rest.len() as int) =~= after);
    lemma_replaced_without_brace(after, pat, value);
    assert(before + (value + after) =~= before + value + after);
}

} // verus!
