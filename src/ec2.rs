//! The query protocol: parameters travel as flat, dotted keys and responses
//! come back as XML.

use vstd::prelude::*;
use crate::botocore::{find_operation, member_tag, Operation, Service, Shape, ShapeType, StructureMember};
use crate::generator::{
    conventional_response_tag, conventional_tag, BODY_OPEN, DESERIALIZER_IMPL, DESERIALIZER_OPEN,
    DESERIALIZER_RESULT, UNIT_CLOSE, documentation_text, field_name,
    generate_documentation, generate_field_name, generate_list_deserializer,
    generate_method_signature, generate_primitive_deserializer, generate_struct_deserializer,
    is_primitive, list_deserializer_text, method_signature_text, primitive_deserializer_text,
    snake_case_of, struct_deserializer_text, to_snake_case, GenerateProtocol, Response,
};
use crate::quirks::{
    ec2_deserialized_requests, ec2_deserialized_requests_spec, ec2_operation_root_tags,
    ec2_operation_root_tags_spec, ec2_root_tags, ec2_root_tags_spec, is_listed, lookup, lookup2,
    lookup_tag, lookup_tag2,
};
use crate::text::{
    capitalize_first, capitalized, ends_with, filter_map_seq, join, join_strings,
    lemma_views_push, opt_view, str_ends_with, views,
};

verus! {

/// Generates clients for services that speak the query protocol.
pub struct Ec2Generator;

pub const REQUEST_OPEN: &'static str = " {
    let mut request = SignedRequest::new(\"";

pub const QUOTE_COMMA_QUOTE: &'static str = "\", \"";

pub const REGION_URI: &'static str = "\", self.region, \"";

pub const PUT_ACTION: &'static str = "\");
    let mut params = Params::new();
    params.put(\"Action\", \"";

pub const PUT_VERSION: &'static str = "\");
    params.put(\"Version\", \"";

pub const INPUT_OPEN: &'static str = "\");
    ";

pub const DISPATCH: &'static str = "
    request.set_params(params);
    request.sign(&try!(self.credentials_provider.credentials()));
    let result = try!(self.dispatcher.dispatch(&request));
    match result.status {
        200 => {
            let mut reader = EventReader::from_str(&result.body);
            let mut stack = XmlResponse::new(reader.events().peekable());
            stack.next();
            ";

pub const ERROR_OPEN: &'static str = "
        },
        _ => Err(";

pub const METHOD_CLOSE: &'static str = "::from_body(&result.body)),
    }
}
";

/// The call that serializes the input into the parameters, if there is an input.
pub open spec fn input_serialization_text(op: Operation) -> Seq<char> {
    match op.input {
        Some(i) => i.shape@ + "Serializer::serialize(&mut params, \"\", &input);"@,
        None => Seq::empty(),
    }
}

fn generate_method_input_serialization(operation: &Operation) -> (r: String)
    ensures
        r@ == input_serialization_text(*operation),
{
    match &operation.input {
        Some(i) => i.shape.clone().concat("Serializer::serialize(&mut params, \"\", &input);"),
        None => String::new(),
    }
}

/// The root tag of a response whose output shape is `output_type`, as the
/// convention gives it.
pub open spec fn response_tag_name(output_type: Seq<char>) -> Seq<char> {
    conventional_tag(output_type)
}

pub fn generate_response_tag_name(member_name: &str) -> (r: String)
    ensures
        r@ == response_tag_name(member_name@),
{
    match conventional_response_tag(member_name) {
        Some(t) => t,
        None => String::from_str(member_name),
    }
}

/// The root tag of the response of `op`: the exception for the operation,
/// else the exception for the conventional name, else the conventional name.
pub open spec fn root_tag(op: Operation, output_type: Seq<char>) -> Seq<char> {
    let standard = response_tag_name(output_type);
    match lookup2(ec2_operation_root_tags_spec(), standard, op.name@) {
        Some(t) => t,
        None => match lookup(ec2_root_tags_spec(), standard) {
            Some(t) => t,
            None => standard,
        },
    }
}

/// What a method returns on success: the deserialized output, or unit.
pub open spec fn return_value_text(op: Operation) -> Seq<char> {
    match op.output {
        Some(o) => "Ok(try!("@ + o.shape@ + "Deserializer::deserialize(\""@ + root_tag(op, o.shape@)
            + "\", &mut stack)))"@,
        None => "Ok(())"@,
    }
}

fn generate_method_return_value(operation: &Operation) -> (r: String)
    ensures
        r@ == return_value_text(*operation),
{
    match &operation.output {
        Some(o) => {
            let standard = generate_response_tag_name(o.shape.as_str());
            let tag = match lookup_tag2(
                &ec2_operation_root_tags(),
                standard.as_str(),
                operation.name.as_str(),
            ) {
                Some(t) => t,
                None => match lookup_tag(&ec2_root_tags(), standard.as_str()) {
                    Some(t) => t,
                    None => standard,
                },
            };
            String::from_str("Ok(try!(").concat(o.shape.as_str()).concat(
                "Deserializer::deserialize(\"",
            ).concat(tag.as_str()).concat("\", &mut stack)))")
        },
        None => String::from_str("Ok(())"),
    }
}

/// The client method of one operation.
pub open spec fn method_text(service: Service, op: Operation) -> Seq<char> {
    documentation_text(op) + "\n"@ + method_signature_text(op) + REQUEST_OPEN@ + op.http.method@
        + QUOTE_COMMA_QUOTE@ + service.metadata.endpoint_prefix@ + REGION_URI@
        + op.http.request_uri@ + PUT_ACTION@ + op.name@ + PUT_VERSION@
        + service.metadata.api_version@ + INPUT_OPEN@ + input_serialization_text(op) + DISPATCH@
        + return_value_text(op) + ERROR_OPEN@ + op.error_type_name_spec() + METHOD_CLOSE@
}

pub open spec fn method_fn(service: Service) -> spec_fn(Operation) -> Seq<char> {
    |op: Operation| method_text(service, op)
}

fn generate_method(service: &Service, operation: &Operation) -> (r: String)
    ensures
        r@ == method_text(*service, *operation),
{
    generate_documentation(operation).concat("\n").concat(
        generate_method_signature(operation).as_str(),
    ).concat(REQUEST_OPEN).concat(operation.http.method.as_str()).concat(QUOTE_COMMA_QUOTE).concat(
        service.metadata.endpoint_prefix.as_str(),
    ).concat(REGION_URI).concat(operation.http.request_uri.as_str()).concat(PUT_ACTION).concat(
        operation.name.as_str(),
    ).concat(PUT_VERSION).concat(service.metadata.api_version.as_str()).concat(INPUT_OPEN).concat(
        generate_method_input_serialization(operation).as_str(),
    ).concat(DISPATCH).concat(generate_method_return_value(operation).as_str()).concat(
        ERROR_OPEN,
    ).concat(operation.error_type_name().as_str()).concat(METHOD_CLOSE)
}

pub open spec fn methods_text(service: Service) -> Seq<char> {
    join(service.operations@.map_values(method_fn(service)), "\n"@)
}

fn generate_methods(service: &Service) -> (r: String)
    ensures
        r@ == methods_text(*service),
{
    let ghost f = method_fn(*service);
    let mut parts: Vec<String> = Vec::new();
    let mut i: usize = 0;
    while i < service.operations.len()
        invariant
            0 <= i <= service.operations.len(),
            f == method_fn(*service),
            views(parts@) == service.operations@.take(i as int).map_values(f),
        decreases service.operations.len() - i,
    {
        let m = generate_method(service, &service.operations[i]);
        proof {
            lemma_views_push(parts@, m);
            assert(service.operations@.take(i + 1).map_values(f) =~= service.operations@.take(
                i as int,
            ).map_values(f).push(m@));
        }
        parts.push(m);
        i += 1;
    }
    assert(service.operations@.take(service.operations.len() as int) =~= service.operations@);
    join_strings(&parts, "\n")
}

/// Whether a shape of this name gets a deserializer: requests do not, but
/// for the listed exceptions that responses carry.
pub open spec fn needs_deserializer(name: Seq<char>) -> bool {
    !ends_with(name, "Request"@) || ec2_deserialized_requests_spec().contains(name)
}

pub open spec fn deserializer_body_text(name: Seq<char>, shape: Shape) -> Option<Seq<char>> {
    if !needs_deserializer(name) {
        None
    } else {
        Some(
            match shape.shape_type {
                ShapeType::List => list_deserializer_text(
                    shape.member->0.tag_name_spec(),
                    shape.member->0.shape@,
                ),
                ShapeType::Structure => struct_deserializer_text(name, shape),
                _ => primitive_deserializer_text(shape.shape_type),
            },
        )
    }
}

fn generate_deserializer_body(name: &str, shape: &Shape) -> (r: Option<String>)
    requires
        shape.wf(),
        needs_deserializer(name@) ==> shape.shape_type != ShapeType::Mapping,
    ensures
        opt_view(r) == deserializer_body_text(name@, *shape),
{
    if str_ends_with(name, "Request") && !is_listed(&ec2_deserialized_requests(), name) {
        return None;
    }
    match shape.shape_type {
        ShapeType::List => Some(generate_list_deserializer(shape, shape.member())),
        ShapeType::Structure => Some(generate_struct_deserializer(name, shape)),
        _ => Some(generate_primitive_deserializer(shape)),
    }
}

pub const LIST_SERIALIZER_OPEN: &'static str = "for (index, element) in obj.iter().enumerate() {
    let key = format!(\"{}.{}\", name, index);
    ";

pub const LIST_SERIALIZER_CLOSE: &'static str = "Serializer::serialize(params, &key, element);
}";

/// A list serializer: element `i` goes under the key `name.i`, counted from zero.
pub open spec fn list_serializer_text(element_type: Seq<char>) -> Seq<char> {
    LIST_SERIALIZER_OPEN@ + element_type + LIST_SERIALIZER_CLOSE@
}

fn generate_list_serializer(shape: &Shape) -> (r: String)
    requires
        shape.member is Some,
    ensures
        r@ == list_serializer_text(shape.member->0.shape@),
{
    String::from_str(LIST_SERIALIZER_OPEN).concat(shape.member()).concat(LIST_SERIALIZER_CLOSE)
}

pub const MAP_SERIALIZER_OPEN: &'static str = "for (index, (key, value)) in obj.iter().enumerate() {
    let prefix = format!(\"{}.{}\", name, index);
    ";

pub const MAP_KEY_AT: &'static str = "Serializer::serialize(params, &format!(\"{}.{}\", prefix, \"";

pub const MAP_KEY_CLOSE: &'static str = "\"), key);
    ";

pub const MAP_VALUE_CLOSE: &'static str = "\"), value);
}";

/// A map serializer: entry `i` puts its key under `name.i.K` and its value
/// under `name.i.V`, where K and V name the key and value shapes.
pub open spec fn map_serializer_text(key_type: Seq<char>, value_type: Seq<char>) -> Seq<char> {
    MAP_SERIALIZER_OPEN@ + key_type + MAP_KEY_AT@ + key_type + MAP_KEY_CLOSE@ + value_type
        + MAP_KEY_AT@ + value_type + MAP_VALUE_CLOSE@
}

fn generate_map_serializer(shape: &Shape) -> (r: String)
    requires
        shape.key is Some,
        shape.value is Some,
    ensures
        r@ == map_serializer_text(shape.key->0.shape@, shape.value->0.shape@),
{
    String::from_str(MAP_SERIALIZER_OPEN).concat(shape.key()).concat(MAP_KEY_AT).concat(
        shape.key(),
    ).concat(MAP_KEY_CLOSE).concat(shape.value()).concat(MAP_KEY_AT).concat(shape.value()).concat(
        MAP_VALUE_CLOSE,
    )
}

pub const FIELD_KEY: &'static str = "Serializer::serialize(params, &format!(\"{}";

pub const FIELD_PREFIX: &'static str = "\", prefix), ";

pub const OPTIONAL_FIELD_OPEN: &'static str = "if let Some(ref field_value) = obj.";

pub const OPTIONAL_FIELD_CALL: &'static str = " {
    ";

pub const OPTIONAL_FIELD_CLOSE: &'static str = "\", prefix), field_value);
}";

/// The serialization of one structure member under `prefix` followed by its
/// capitalized wire name: unconditional where required, guarded by presence
/// where optional; deprecated members get none.
pub open spec fn field_serializer_line(shape: Shape, sm: StructureMember) -> Option<Seq<char>> {
    let tag = capitalized(member_tag(sm.name@, sm.member));
    let field = field_name(sm.name@);
    if sm.member.deprecated {
        None
    } else if shape.is_required(sm.name@) {
        Some(sm.member.shape@ + FIELD_KEY@ + tag + FIELD_PREFIX@ + "&obj."@ + field + ");"@)
    } else {
        Some(
            OPTIONAL_FIELD_OPEN@ + field + OPTIONAL_FIELD_CALL@ + sm.member.shape@ + FIELD_KEY@
                + tag + OPTIONAL_FIELD_CLOSE@,
        )
    }
}

pub open spec fn field_serializer_fn(shape: Shape) -> spec_fn(StructureMember) -> Option<Seq<char>> {
    |sm: StructureMember| field_serializer_line(shape, sm)
}

pub open spec fn struct_field_serializers_text(shape: Shape) -> Seq<char> {
    join(filter_map_seq(shape.members@, field_serializer_fn(shape)), "\n"@)
}

fn generate_struct_field_serializers(shape: &Shape) -> (r: String)
    ensures
        r@ == struct_field_serializers_text(*shape),
{
    let ghost f = field_serializer_fn(*shape);
    let mut lines: Vec<String> = Vec::new();
    let mut i: usize = 0;
    while i < shape.members.len()
        invariant
            0 <= i <= shape.members.len(),
            f == field_serializer_fn(*shape),
            views(lines@) == filter_map_seq(shape.members@.take(i as int), f),
        decreases shape.members.len() - i,
    {
        let sm = &shape.members[i];
        proof {
            assert(shape.members@.take(i + 1).drop_last() =~= shape.members@.take(i as int));
            assert(shape.members@.take(i + 1).last() == *sm);
        }
        if !sm.member.deprecated() {
            let wire = match &sm.member.location_name {
                Some(l) => l.as_str(),
                None => sm.name.as_str(),
            };
            let tag = capitalize_first(wire);
            let field = generate_field_name(sm.name.as_str());
            let line = if shape.required(sm.name.as_str()) {
                sm.member.shape.clone().concat(FIELD_KEY).concat(tag.as_str()).concat(
                    FIELD_PREFIX,
                ).concat("&obj.").concat(field.as_str()).concat(");")
            } else {
                String::from_str(OPTIONAL_FIELD_OPEN).concat(field.as_str()).concat(
                    OPTIONAL_FIELD_CALL,
                ).concat(sm.member.shape.as_str()).concat(FIELD_KEY).concat(tag.as_str()).concat(
                    OPTIONAL_FIELD_CLOSE,
                )
            };
            proof {
                lemma_views_push(lines@, line);
            }
            lines.push(line);
        }
        i += 1;
    }
    assert(shape.members@.take(shape.members.len() as int) =~= shape.members@);
    join_strings(&lines, "\n")
}

pub const STRUCT_SERIALIZER_OPEN: &'static str = "let mut prefix = name.to_string();
if prefix != \"\" {
    prefix.push_str(\".\");
}
";

/// A structure serializer: the key prefix is the parent key and a dot,
/// or nothing at the top, followed by the members.
pub open spec fn struct_serializer_text(shape: Shape) -> Seq<char> {
    STRUCT_SERIALIZER_OPEN@ + struct_field_serializers_text(shape)
}

fn generate_struct_serializer(shape: &Shape) -> (r: String)
    ensures
        r@ == struct_serializer_text(*shape),
{
    String::from_str(STRUCT_SERIALIZER_OPEN).concat(generate_struct_field_serializers(shape).as_str())
}

/// The value of a primitive as parameter text: text kinds as they are,
/// numbers and booleans in their canonical text, binary data read as UTF-8.
pub open spec fn primitive_text_expression(t: ShapeType) -> Seq<char> {
    match t {
        ShapeType::Integer | ShapeType::Long | ShapeType::Float | ShapeType::Double
        | ShapeType::Boolean => "&obj.to_string()"@,
        ShapeType::Blob => "from_utf8(obj).unwrap()"@,
        _ => "obj"@,
    }
}

pub open spec fn primitive_serializer_text(t: ShapeType) -> Seq<char> {
    "params.put(name, "@ + primitive_text_expression(t) + ");"@
}

fn generate_primitive_serializer(shape: &Shape) -> (r: String)
    requires
        is_primitive(shape.shape_type),
    ensures
        r@ == primitive_serializer_text(shape.shape_type),
{
    let expression = match shape.shape_type {
        ShapeType::Integer | ShapeType::Long | ShapeType::Float | ShapeType::Double
        | ShapeType::Boolean => "&obj.to_string()",
        ShapeType::Blob => "from_utf8(obj).unwrap()",
        _ => "obj",
    };
    String::from_str("params.put(name, ").concat(expression).concat(");")
}

/// Responses are never sent, so shapes named like them get no serializer.
pub open spec fn serializer_body_text(name: Seq<char>, shape: Shape) -> Option<Seq<char>> {
    if ends_with(name, "Response"@) {
        None
    } else {
        Some(
            match shape.shape_type {
                ShapeType::List => list_serializer_text(shape.member->0.shape@),
                ShapeType::Mapping => map_serializer_text(shape.key->0.shape@, shape.value->0.shape@),
                ShapeType::Structure => struct_serializer_text(shape),
                _ => primitive_serializer_text(shape.shape_type),
            },
        )
    }
}

fn generate_serializer_body(name: &str, shape: &Shape) -> (r: Option<String>)
    requires
        shape.wf(),
    ensures
        opt_view(r) == serializer_body_text(name@, *shape),
{
    if str_ends_with(name, "Response") {
        return None;
    }
    match shape.shape_type {
        ShapeType::List => Some(generate_list_serializer(shape)),
        ShapeType::Mapping => Some(generate_map_serializer(shape)),
        ShapeType::Structure => Some(generate_struct_serializer(shape)),
        _ => Some(generate_primitive_serializer(shape)),
    }
}

/// A structure without members leaves its parameters unnamed, as they go unused.
pub open spec fn serializer_signature_text(name: Seq<char>, shape: Shape) -> Seq<char> {
    if shape.shape_type == ShapeType::Structure && shape.members.len() == 0 {
        "fn serialize(_params: &mut Params, name: &str, _obj: &"@ + name + ")"@
    } else {
        "fn serialize(params: &mut Params, name: &str, obj: &"@ + name + ")"@
    }
}

fn generate_serializer_signature(name: &str, shape: &Shape) -> (r: String)
    ensures
        r@ == serializer_signature_text(name@, *shape),
{
    if shape.shape_type == ShapeType::Structure && shape.members.len() == 0 {
        String::from_str("fn serialize(_params: &mut Params, name: &str, _obj: &").concat(name).concat(
            ")",
        )
    } else {
        String::from_str("fn serialize(params: &mut Params, name: &str, obj: &").concat(name).concat(
            ")",
        )
    }
}

pub const SERIALIZER_DOC: &'static str = "
/// Serialize `";

pub const SERIALIZER_STRUCT: &'static str = "` contents to a `SignedRequest`.
struct ";

pub const SERIALIZER_IMPL: &'static str = "Serializer;
impl ";

pub const SERIALIZER_OPEN: &'static str = "Serializer {
    ";

pub const DESERIALIZER_DOC: &'static str = "/// Deserializes `";

pub const DESERIALIZER_STRUCT: &'static str = "` from XML.
struct ";

pub open spec fn serializer_unit_text(name: Seq<char>, shape: Shape) -> Seq<char> {
    match serializer_body_text(name, shape) {
        Some(body) => SERIALIZER_DOC@ + name + SERIALIZER_STRUCT@ + name + SERIALIZER_IMPL@ + name
            + SERIALIZER_OPEN@ + serializer_signature_text(name, shape) + BODY_OPEN@ + body
            + UNIT_CLOSE@,
        None => Seq::empty(),
    }
}

pub open spec fn deserializer_unit_text(name: Seq<char>, shape: Shape) -> Seq<char> {
    match deserializer_body_text(name, shape) {
        Some(body) => DESERIALIZER_DOC@ + name + DESERIALIZER_STRUCT@ + name + DESERIALIZER_IMPL@
            + name + DESERIALIZER_OPEN@ + name + DESERIALIZER_RESULT@ + body + UNIT_CLOSE@,
        None => Seq::empty(),
    }
}

/// The serializer unit, where the shape gets one, then the deserializer
/// unit, where it gets one.
pub open spec fn support_types_text(name: Seq<char>, shape: Shape) -> Seq<char> {
    serializer_unit_text(name, shape) + deserializer_unit_text(name, shape)
}

/// The query protocol has no deserializer rule for maps.
pub open spec fn supports_shape(name: Seq<char>, shape: Shape) -> bool {
    needs_deserializer(name) ==> shape.shape_type != ShapeType::Mapping
}

fn generate_support_types(name: &str, shape: &Shape) -> (r: String)
    requires
        shape.wf(),
        supports_shape(name@, *shape),
    ensures
        r@ == support_types_text(name@, *shape),
{
    let serializer = match generate_serializer_body(name, shape) {
        Some(body) => String::from_str(SERIALIZER_DOC).concat(name).concat(SERIALIZER_STRUCT).concat(
            name,
        ).concat(SERIALIZER_IMPL).concat(name).concat(SERIALIZER_OPEN).concat(
            generate_serializer_signature(name, shape).as_str(),
        ).concat(BODY_OPEN).concat(body.as_str()).concat(UNIT_CLOSE),
        None => String::new(),
    };
    let deserializer = match generate_deserializer_body(name, shape) {
        Some(body) => String::from_str(DESERIALIZER_DOC).concat(name).concat(
            DESERIALIZER_STRUCT,
        ).concat(name).concat(DESERIALIZER_IMPL).concat(name).concat(DESERIALIZER_OPEN).concat(
            name,
        ).concat(DESERIALIZER_RESULT).concat(body.as_str()).concat(UNIT_CLOSE),
        None => String::new(),
    };
    serializer.concat(deserializer.as_str())
}

pub const TEST_OPEN: &'static str = "
#[test]
fn test_parse_";

pub const TEST_FIXTURE: &'static str = "() {
    let mock_response = MockResponseReader::read_response(\"";

pub const TEST_CLIENT: &'static str = "\");
    let mock = MockRequestDispatcher::with_status(200).with_body(&mock_response);
    let client = ";

pub const TEST_DISPATCHER: &'static str = "::with_request_dispatcher(mock, MockCredentialsProvider, rusoto_region::UsEast1);
";

pub const TEST_CHECK: &'static str = "    if result.is_err() {
        println!(\"result: {:?}\", result);
    }
    assert!(result.is_ok());
}
";

/// The call of the operation's method in a test: with a default request
/// where the operation takes input, without one where it takes none.
pub open spec fn test_call_text(op: Operation) -> Seq<char> {
    match op.input {
        Some(i) => "    let request = "@ + i.shape@ + "::default();\n    let result = client."@
            + snake_case_of(op.name@) + "(&request);\n"@,
        None => "    let result = client."@ + snake_case_of(op.name@) + "();\n"@,
    }
}

/// A test that parses one recorded response, where the service has its operation.
pub open spec fn response_parse_test_text(service: Service, response: Response) -> Option<Seq<char>> {
    match find_operation(service.operations@, response.action@) {
        Some(op) => Some(
            TEST_OPEN@ + snake_case_of(response.service@) + "_"@ + snake_case_of(response.action@)
                + TEST_FIXTURE@ + response.file_name@ + TEST_CLIENT@
                + service.client_type_name_spec() + TEST_DISPATCHER@ + test_call_text(op)
                + TEST_CHECK@,
        ),
        None => None,
    }
}

fn generate_response_parse_test(service: &Service, response: &Response) -> (r: Option<String>)
    ensures
        opt_view(r) == response_parse_test_text(*service, *response),
{
    let operation = match service.get_operation(response.action.as_str()) {
        Some(op) => op,
        None => return None,
    };
    let method = to_snake_case(operation.name.as_str());
    let call = match &operation.input {
        Some(i) => String::from_str("    let request = ").concat(i.shape.as_str()).concat(
            "::default();\n    let result = client.",
        ).concat(method.as_str()).concat("(&request);\n"),
        None => String::from_str("    let result = client.").concat(method.as_str()).concat(
            "();\n",
        ),
    };
    Some(
        String::from_str(TEST_OPEN).concat(to_snake_case(response.service.as_str()).as_str()).concat(
            "_",
        ).concat(to_snake_case(response.action.as_str()).as_str()).concat(TEST_FIXTURE).concat(
            response.file_name.as_str(),
        ).concat(TEST_CLIENT).concat(service.client_type_name().as_str()).concat(
            TEST_DISPATCHER,
        ).concat(call.as_str()).concat(TEST_CHECK),
    )
}

/// The test of a response that belongs to this service.
pub open spec fn own_test(service: Service, response: Response) -> Option<Seq<char>> {
    if response.service@ == service.service_type_name_spec() {
        response_parse_test_text(service, response)
    } else {
        None
    }
}

pub open spec fn own_test_fn(service: Service) -> spec_fn(Response) -> Option<Seq<char>> {
    |response: Response| own_test(service, response)
}

pub const TESTS_USES: &'static str = "
use mock::*;
use super::*;
use super::super::Region as rusoto_region;
";

pub open spec fn tests_body_text(service: Service, responses: Seq<Response>) -> Seq<char> {
    TESTS_USES@ + join(filter_map_seq(responses, own_test_fn(service)), "\n\n"@) + "\n"@
}

fn generate_tests_body(service: &Service, responses: &Vec<Response>) -> (r: String)
    ensures
        r@ == tests_body_text(*service, responses@),
{
    let ghost f = own_test_fn(*service);
    let service_name = service.service_type_name();
    let mut tests: Vec<String> = Vec::new();
    let mut i: usize = 0;
    while i < responses.len()
        invariant
            0 <= i <= responses.len(),
            f == own_test_fn(*service),
            service_name@ == service.service_type_name_spec(),
            views(tests@) == filter_map_seq(responses@.take(i as int), f),
        decreases responses.len() - i,
    {
        let response = &responses[i];
        proof {
            assert(responses@.take(i + 1).drop_last() =~= responses@.take(i as int));
            assert(responses@.take(i + 1).last() == *response);
        }
        if crate::text::str_eq(response.service.as_str(), service_name.as_str()) {
            match generate_response_parse_test(service, response) {
                Some(t) => {
                    proof {
                        lemma_views_push(tests@, t);
                    }
                    tests.push(t);
                },
                None => {},
            }
        }
        i += 1;
    }
    assert(responses@.take(responses.len() as int) =~= responses@);
    String::from_str(TESTS_USES).concat(join_strings(&tests, "\n\n").as_str()).concat("\n")
}

pub const TESTS_OPEN: &'static str = "
#[cfg(test)]
mod protocol_tests {
";

pub const TESTS_CLOSE: &'static str = "
}
";

pub const PRELUDE: &'static str = "use std::str::{FromStr, from_utf8};

use xml::EventReader;

use param::{Params, ServiceParams};

use signature::SignedRequest;
use xml::reader::events::XmlEvent;
use xmlutil::{Next, Peek, XmlParseError, XmlResponse};
use xmlutil::{characters, end_element, start_element, skip_tree};
use xmlerror::*;

enum DeserializerNext {
    Close,
    Skip,
    Element(String),
}
";

impl GenerateProtocol for Ec2Generator {
    open spec fn methods_text(&self, service: Service) -> Seq<char> {
        methods_text(service)
    }

    open spec fn prelude_text(&self, service: Service) -> Seq<char> {
        PRELUDE@
    }

    open spec fn struct_attributes_text(&self, struct_name: Seq<char>) -> Seq<char> {
        "#[derive(Debug, Default, Clone)]"@
    }

    open spec fn supports(&self, name: Seq<char>, shape: Shape) -> bool {
        supports_shape(name, shape)
    }

    open spec fn support_types_text(&self, name: Seq<char>, shape: Shape, service: Service) -> Option<
        Seq<char>,
    > {
        Some(support_types_text(name, shape))
    }

    open spec fn timestamp_type_text(&self) -> Seq<char> {
        "String"@
    }

    open spec fn tests_text(&self, service: Service, responses: Seq<Response>) -> Option<Seq<char>> {
        Some(TESTS_OPEN@ + tests_body_text(service, responses) + TESTS_CLOSE@)
    }

    fn supports_shape(&self, name: &str, shape: &Shape) -> (r: bool) {
        let needs = !str_ends_with(name, "Request") || is_listed(&ec2_deserialized_requests(), name);
        !needs || shape.shape_type != ShapeType::Mapping
    }

    fn generate_methods(&self, service: &Service) -> (r: String) {
        generate_methods(service)
    }

    fn generate_prelude(&self, _service: &Service) -> (r: String) {
        String::from_str(PRELUDE)
    }

    fn generate_struct_attributes(&self, _struct_name: &str) -> (r: String) {
        String::from_str("#[derive(Debug, Default, Clone)]")
    }

    fn generate_support_types(&self, name: &str, shape: &Shape, _service: &Service) -> (r: Option<
        String,
    >) {
        Some(generate_support_types(name, shape))
    }

    fn timestamp_type(&self) -> (r: &'static str) {
        "String"
    }

    fn generate_tests(&self, service: &Service, responses: &Vec<Response>) -> (r: Option<String>) {
        Some(
            String::from_str(TESTS_OPEN).concat(generate_tests_body(service, responses).as_str()).concat(
                TESTS_CLOSE,
            ),
        )
    }
}

} // verus!
