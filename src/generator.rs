//! What both protocol generators share: the protocol interface, the names of
//! generated items, documentation and method signatures, and the units that
//! deserialize a shape from a stream of XML events.

use vstd::prelude::*;
use crate::botocore::{member_tag, Member, Operation, Service, Shape, ShapeType, StructureMember};
use crate::text::{
    drop_last_chars, ends_with, filter_map_seq, join, join_strings, lemma_views_push, replace_all,
    replaced, str_ends_with, str_eq, views,
};

verus! {

/// A recorded sample response of a service's operation, kept as a test fixture.
#[derive(Clone, Debug)]
pub struct Response {
    /// Type name of the service.
    pub service: String,
    /// Name of the operation.
    pub action: String,
    /// The fixture's file name.
    pub file_name: String,
}

/// The position of the first `c` in `s`, where there is one.
pub open spec fn first_index(s: Seq<char>, c: char) -> Option<int>
    decreases s.len(),
{
    if s.len() == 0 {
        None
    } else if s[0] == c {
        Some(0)
    } else {
        match first_index(s.drop_first(), c) {
            Some(i) => Some(i + 1),
            None => None,
        }
    }
}

/// The service and action that a fixture's file name `<service>-<action>.xml`
/// gives: the service ends at the first dash.
pub open spec fn fixture_names(name: Seq<char>) -> Option<(Seq<char>, Seq<char>)> {
    match first_index(name, '-') {
        Some(k) => if ends_with(name, ".xml"@) && k + 1 <= name.len() - 4 {
            Some((name.take(k), name.subrange(k + 1, name.len() - 4)))
        } else {
            None
        },
        None => None,
    }
}

impl Response {
    /// The recorded response that a fixture file of this name holds, where
    /// the name has the form `<service>-<action>.xml`.
    pub fn from_file_name(name: &str) -> (r: Option<Response>)
        ensures
            match r {
                Some(resp) => fixture_names(name@) == Some((resp.service@, resp.action@))
                    && resp.file_name@ == name@,
                None => fixture_names(name@) is None,
            },
    {
        let n = name.unicode_len();
        let mut k: usize = 0;
        while k < n && name.get_char(k) != '-'
            invariant
                n == name@.len(),
                0 <= k <= n,
                forall|j: int| 0 <= j < k ==> name@[j] != '-',
            decreases n - k,
        {
            k += 1;
        }
        proof {
            lemma_first_index(name@, '-', k as int);
            reveal_strlit(".xml");
        }
        if k == n || !str_ends_with(name, ".xml") || k + 1 > n - 4 {
            return None;
        }
        Some(
            Response {
                service: String::from_str(name.substring_char(0, k)),
                action: String::from_str(name.substring_char(k + 1, n - 4)),
                file_name: String::from_str(name),
            },
        )
    }
}

proof fn lemma_first_index(s: Seq<char>, c: char, k: int)
    requires
        0 <= k <= s.len(),
        forall|j: int| 0 <= j < k ==> s[j] != c,
        k == s.len() || s[k] == c,
    ensures
        k == s.len() ==> first_index(s, c) is None,
        k < s.len() ==> first_index(s, c) == Some(k),
    decreases k,
{
    if k > 0 {
        let t = s.drop_first();
        assert forall|j: int| 0 <= j < k - 1 implies #[trigger] t[j] != c by {
            assert(t[j] == s[j + 1]);
        }
        if k < s.len() {
            assert(t[k - 1] == s[k]);
        }
        lemma_first_index(t, c, k - 1);
    }
}

/// The generation rules of one wire protocol.
pub trait GenerateProtocol {
    spec fn methods_text(&self, service: Service) -> Seq<char>;

    spec fn prelude_text(&self, service: Service) -> Seq<char>;

    spec fn struct_attributes_text(&self, struct_name: Seq<char>) -> Seq<char>;

    /// Whether the protocol has a rule for every unit that the shape needs.
    spec fn supports(&self, name: Seq<char>, shape: Shape) -> bool;

    spec fn support_types_text(&self, name: Seq<char>, shape: Shape, service: Service) -> Option<
        Seq<char>,
    >;

    spec fn timestamp_type_text(&self) -> Seq<char>;

    spec fn tests_text(&self, service: Service, responses: Seq<Response>) -> Option<Seq<char>>;

    /// Whether the protocol has a rule for every unit that the shape needs.
    fn supports_shape(&self, name: &str, shape: &Shape) -> (r: bool)
        ensures
            r == self.supports(name@, *shape),
    ;

    /// The method of every operation, in declaration order.
    fn generate_methods(&self, service: &Service) -> (r: String)
        requires
            service.wf(),
        ensures
            r@ == self.methods_text(*service),
    ;

    /// Imports and declarations emitted once per generated file.
    fn generate_prelude(&self, service: &Service) -> (r: String)
        ensures
            r@ == self.prelude_text(*service),
    ;

    /// Annotations placed on every generated data type.
    fn generate_struct_attributes(&self, struct_name: &str) -> (r: String)
        ensures
            r@ == self.struct_attributes_text(struct_name@),
    ;

    /// The serializer and deserializer units of one shape, or none where it needs neither.
    fn generate_support_types(&self, name: &str, shape: &Shape, service: &Service) -> (r: Option<
        String,
    >)
        requires
            shape.wf(),
            self.supports(name@, *shape),
        ensures
            crate::text::opt_view(r) == self.support_types_text(name@, *shape, *service),
    ;

    /// The type that holds timestamps.
    fn timestamp_type(&self) -> (r: &'static str)
        ensures
            r@ == self.timestamp_type_text(),
    ;

    /// Tests that parse the recorded responses of the service's operations.
    fn generate_tests(&self, service: &Service, responses: &Vec<Response>) -> (r: Option<String>)
        ensures
            crate::text::opt_view(r) == self.tests_text(*service, responses@),
    ;
}

/// Generation is a function of the model: two runs of a protocol over equal
/// models give the same text, part for part.
pub proof fn lemma_generation_deterministic<G: GenerateProtocol>(
    protocol: G,
    first: Service,
    second: Service,
    responses: Seq<Response>,
)
    requires
        first == second,
    ensures
        protocol.prelude_text(first) == protocol.prelude_text(second),
        protocol.methods_text(first) == protocol.methods_text(second),
        forall|name: Seq<char>, shape: Shape|
            protocol.support_types_text(name, shape, first) == #[trigger] protocol.support_types_text(
                name,
                shape,
                second,
            ),
        protocol.tests_text(first, responses) == protocol.tests_text(second, responses),
{
}

/// What inflector's snake_case conversion makes of a name.
pub uninterp spec fn snake_case_of(s: Seq<char>) -> Seq<char>;

/// Relies on inflector's `to_snake_case`, which turns a CamelCase name into
/// snake_case; the result depends on the text alone.
#[verifier::external_body]
pub(crate) fn to_snake_case(s: &str) -> (r: String)
    ensures
        r@ == snake_case_of(s@),
{
    inflector::cases::snakecase::to_snake_case(s)
}

/// The Rust field that holds a member: its snake_case name, with a trailing
/// underscore where that is a keyword.
pub open spec fn field_name(member_name: Seq<char>) -> Seq<char> {
    let n = snake_case_of(member_name);
    if n == "return"@ || n == "type"@ {
        n + "_"@
    } else {
        n
    }
}

pub fn generate_field_name(member_name: &str) -> (r: String)
    ensures
        r@ == field_name(member_name@),
{
    let n = to_snake_case(member_name);
    if str_eq(n.as_str(), "return") || str_eq(n.as_str(), "type") {
        n.concat("_")
    } else {
        n
    }
}

pub const DOC_OPEN: &'static str = "#[doc=\"";

pub const DOC_CLOSE: &'static str = "\"]";

/// The operation's documentation as a doc attribute, with quotes and `C:\`
/// escaped; nothing where it has none.
pub open spec fn documentation_text(op: Operation) -> Seq<char> {
    match op.documentation {
        Some(d) => DOC_OPEN@ + replaced(replaced(d@, "\""@, "\\\""@), "C:\\"@, "C:\\\\"@)
            + DOC_CLOSE@,
        None => Seq::empty(),
    }
}

pub fn generate_documentation(operation: &Operation) -> (r: String)
    ensures
        r@ == documentation_text(*operation),
{
    match &operation.documentation {
        Some(docs) => {
            proof {
                reveal_strlit("\"");
                reveal_strlit("C:\\");
            }
            let quoted = replace_all(docs.as_str(), "\"", "\\\"");
            let escaped = replace_all(quoted.as_str(), "C:\\", "C:\\\\");
            String::from_str(DOC_OPEN).concat(escaped.as_str()).concat(DOC_CLOSE)
        },
        None => String::new(),
    }
}

/// The signature of an operation's method on the client.
pub open spec fn method_signature_text(op: Operation) -> Seq<char> {
    let result = ") -> Result<"@ + op.output_shape_or_spec("()"@) + ", "@ + op.error_type_name_spec()
        + ">"@;
    match op.input {
        Some(i) => "pub fn "@ + snake_case_of(op.name@) + "(&self, input: &"@ + i.shape@ + result,
        None => "pub fn "@ + snake_case_of(op.name@) + "(&self"@ + result,
    }
}

pub fn generate_method_signature(operation: &Operation) -> (r: String)
    ensures
        r@ == method_signature_text(*operation),
{
    let result = String::from_str(") -> Result<").concat(
        operation.output_shape_or("()").as_str(),
    ).concat(", ").concat(operation.error_type_name().as_str()).concat(">");
    let head = String::from_str("pub fn ").concat(to_snake_case(operation.name.as_str()).as_str());
    match &operation.input {
        Some(i) => head.concat("(&self, input: &").concat(i.shape.as_str()).concat(
            result.as_str(),
        ),
        None => head.concat("(&self").concat(result.as_str()),
    }
}

/// The call that reads a structure member from its element.
pub open spec fn deserialize_call_text(member_name: Seq<char>, member: Member) -> Seq<char> {
    "try!("@ + member.shape@ + "Deserializer::deserialize(\""@ + member_tag(member_name, member)
        + "\", stack))"@
}

/// The expression that reads a structure member: a bare value where the
/// member is required, a `Some` where it is optional.
pub open spec fn parse_expression_text(shape: Shape, member_name: Seq<char>, member: Member) -> Seq<
    char,
> {
    let e = deserialize_call_text(member_name, member);
    if shape.is_required(member_name) {
        e
    } else {
        "Some("@ + e + ")"@
    }
}

/// Presence is decided by the structure, never by the data: a required
/// member is read into a bare value, an optional one always into a `Some`
/// wrapper around the same read.
pub proof fn lemma_presence_wrapping(shape: Shape, member_name: Seq<char>, member: Member)
    ensures
        shape.is_required(member_name) ==> parse_expression_text(shape, member_name, member)
            == deserialize_call_text(member_name, member),
        !shape.is_required(member_name) ==> parse_expression_text(shape, member_name, member)
            == "Some("@ + deserialize_call_text(member_name, member) + ")"@,
{
}

pub fn generate_struct_field_parse_expression(shape: &Shape, member_name: &str, member: &Member) -> (r:
    String)
    ensures
        r@ == parse_expression_text(*shape, member_name@, *member),
{
    let tag = match &member.location_name {
        Some(l) => l.as_str(),
        None => member_name,
    };
    let e = String::from_str("try!(").concat(member.shape.as_str()).concat(
        "Deserializer::deserialize(\"",
    ).concat(tag).concat("\", stack))");
    if shape.required(member_name) {
        e
    } else {
        String::from_str("Some(").concat(e.as_str()).concat(")")
    }
}

/// One arm of a structure deserializer's dispatch on tag names; deprecated
/// members get none.
pub open spec fn field_deserializer_line(shape: Shape, sm: StructureMember) -> Option<Seq<char>> {
    if sm.member.deprecated {
        None
    } else {
        Some(
            "\""@ + member_tag(sm.name@, sm.member) + "\" => {\n    obj."@ + field_name(sm.name@)
                + " = "@ + parse_expression_text(shape, sm.name@, sm.member) + ";\n}"@,
        )
    }
}

pub open spec fn field_deserializer_fn(shape: Shape) -> spec_fn(StructureMember) -> Option<
    Seq<char>,
> {
    |sm: StructureMember| field_deserializer_line(shape, sm)
}

pub open spec fn struct_field_deserializers_text(shape: Shape) -> Seq<char> {
    join(filter_map_seq(shape.members@, field_deserializer_fn(shape)), "\n"@)
}

pub fn generate_struct_field_deserializers(shape: &Shape) -> (r: String)
    ensures
        r@ == struct_field_deserializers_text(*shape),
{
    let ghost f = field_deserializer_fn(*shape);
    let mut lines: Vec<String> = Vec::new();
    let mut i: usize = 0;
    while i < shape.members.len()
        invariant
            0 <= i <= shape.members.len(),
            f == field_deserializer_fn(*shape),
            views(lines@) == filter_map_seq(shape.members@.take(i as int), f),
        decreases shape.members.len() - i,
    {
        let sm = &shape.members[i];
        proof {
            assert(shape.members@.take(i + 1).drop_last() =~= shape.members@.take(i as int));
            assert(shape.members@.take(i + 1).last() == *sm);
        }
        if !sm.member.deprecated() {
            let field = generate_field_name(sm.name.as_str());
            let expr = generate_struct_field_parse_expression(shape, sm.name.as_str(), &sm.member);
            let tag = match &sm.member.location_name {
                Some(l) => l.as_str(),
                None => sm.name.as_str(),
            };
            let line = String::from_str("\"").concat(tag).concat("\" => {\n    obj.").concat(
                field.as_str(),
            ).concat(" = ").concat(expr.as_str()).concat(";\n}");
            proof {
                lemma_views_push(lines@, line);
            }
            lines.push(line);
        }
        i += 1;
    }
    assert(shape.members@.take(shape.members.len() as int) =~= shape.members@);
    join_strings(&lines, "\n")
}

/// Reads the next event without consuming it and classifies it.
pub const NEXT_EVENT: &'static str = "    let next_event = match stack.peek() {
        Some(&XmlEvent::EndElement { .. }) => DeserializerNext::Close,
        Some(&XmlEvent::StartElement { ref name, .. }) => DeserializerNext::Element(name.local_name.to_owned()),
        _ => DeserializerNext::Skip,
    };
";

pub const LIST_OPEN: &'static str = "let mut obj = vec![];
try!(start_element(tag_name, stack));
loop {
";

pub const LIST_MATCH: &'static str = "    match next_event {
        DeserializerNext::Element(name) => {
            if name == \"";

pub const LIST_PUSH: &'static str = "\" {
                obj.push(try!(";

pub const DESERIALIZE_AT: &'static str = "Deserializer::deserialize(\"";

pub const LIST_CLOSE: &'static str = "\", stack)));
            } else {
                skip_tree(stack);
            }
        },
        DeserializerNext::Close => {
            try!(end_element(tag_name, stack));
            break;
        },
        DeserializerNext::Skip => { stack.next(); },
    }
}
Ok(obj)";

/// A list deserializer: elements with the element tag are read in order,
/// other elements are skipped whole.
pub open spec fn list_deserializer_text(element_tag: Seq<char>, element_type: Seq<char>) -> Seq<
    char,
> {
    LIST_OPEN@ + NEXT_EVENT@ + LIST_MATCH@ + element_tag + LIST_PUSH@ + element_type
        + DESERIALIZE_AT@ + element_tag + LIST_CLOSE@
}

pub fn generate_list_deserializer(shape: &Shape, element_type: &str) -> (r: String)
    requires
        shape.member is Some,
    ensures
        r@ == list_deserializer_text(shape.member->0.tag_name_spec(), element_type@),
{
    let tag = match &shape.member {
        Some(m) => m.tag_name(),
        None => String::new(),
    };
    String::from_str(LIST_OPEN).concat(NEXT_EVENT).concat(LIST_MATCH).concat(tag.as_str()).concat(
        LIST_PUSH,
    ).concat(element_type).concat(DESERIALIZE_AT).concat(tag.as_str()).concat(LIST_CLOSE)
}

pub open spec fn is_primitive(t: ShapeType) -> bool {
    t != ShapeType::Structure && t != ShapeType::List && t != ShapeType::Mapping
}

/// The expression that reads a primitive's character content as its value.
pub open spec fn primitive_read_text(t: ShapeType) -> Seq<char> {
    match t {
        ShapeType::Integer => "try!(i32::from_str(try!(characters(stack)).as_ref()).map_err(|e| XmlParseError::new(&e.to_string())))"@,
        ShapeType::Long => "try!(i64::from_str(try!(characters(stack)).as_ref()).map_err(|e| XmlParseError::new(&e.to_string())))"@,
        ShapeType::Double => "try!(f64::from_str(try!(characters(stack)).as_ref()).map_err(|e| XmlParseError::new(&e.to_string())))"@,
        ShapeType::Float => "try!(f32::from_str(try!(characters(stack)).as_ref()).map_err(|e| XmlParseError::new(&e.to_string())))"@,
        ShapeType::Boolean => "try!(bool::from_str(try!(characters(stack)).as_ref()).map_err(|e| XmlParseError::new(&e.to_string())))"@,
        ShapeType::Blob => "try!(characters(stack)).into_bytes()"@,
        _ => "try!(characters(stack))"@,
    }
}

pub const PRIMITIVE_OPEN: &'static str = "try!(start_element(tag_name, stack));
let obj = ";

pub const PRIMITIVE_CLOSE: &'static str = ";
try!(end_element(tag_name, stack));
Ok(obj)";

/// A primitive deserializer: the start tag, the content converted to the
/// value, the end tag.
pub open spec fn primitive_deserializer_text(t: ShapeType) -> Seq<char> {
    PRIMITIVE_OPEN@ + primitive_read_text(t) + PRIMITIVE_CLOSE@
}

pub fn generate_primitive_deserializer(shape: &Shape) -> (r: String)
    requires
        is_primitive(shape.shape_type),
    ensures
        r@ == primitive_deserializer_text(shape.shape_type),
{
    let statement = match shape.shape_type {
        ShapeType::Integer => "try!(i32::from_str(try!(characters(stack)).as_ref()).map_err(|e| XmlParseError::new(&e.to_string())))",
        ShapeType::Long => "try!(i64::from_str(try!(characters(stack)).as_ref()).map_err(|e| XmlParseError::new(&e.to_string())))",
        ShapeType::Double => "try!(f64::from_str(try!(characters(stack)).as_ref()).map_err(|e| XmlParseError::new(&e.to_string())))",
        ShapeType::Float => "try!(f32::from_str(try!(characters(stack)).as_ref()).map_err(|e| XmlParseError::new(&e.to_string())))",
        ShapeType::Boolean => "try!(bool::from_str(try!(characters(stack)).as_ref()).map_err(|e| XmlParseError::new(&e.to_string())))",
        ShapeType::Blob => "try!(characters(stack)).into_bytes()",
        _ => "try!(characters(stack))",
    };
    String::from_str(PRIMITIVE_OPEN).concat(statement).concat(PRIMITIVE_CLOSE)
}

pub const EMPTY_STRUCT_OPEN: &'static str = "try!(start_element(tag_name, stack));
stack.next();
let obj = ";

pub const EMPTY_STRUCT_CLOSE: &'static str = "::default();
try!(end_element(tag_name, stack));
stack.next();
Ok(obj)";

pub const STRUCT_OPEN: &'static str = "try!(start_element(tag_name, stack));
let mut obj = ";

pub const STRUCT_LOOP: &'static str = "::default();
loop {
";

pub const STRUCT_MATCH: &'static str = "    match next_event {
        DeserializerNext::Element(name) => {
            match &name[..] {
";

pub const STRUCT_CLOSE: &'static str = "
                _ => skip_tree(stack),
            }
        },
        DeserializerNext::Close => break,
        DeserializerNext::Skip => { stack.next(); },
    }
}
try!(end_element(tag_name, stack));
Ok(obj)";

/// A structure deserializer. Without members it reads a marker element;
/// otherwise it dispatches each child element on its tag name, reads the
/// known members and skips every other child whole.
pub open spec fn struct_deserializer_text(name: Seq<char>, shape: Shape) -> Seq<char> {
    if shape.members.len() == 0 {
        EMPTY_STRUCT_OPEN@ + name + EMPTY_STRUCT_CLOSE@
    } else {
        STRUCT_OPEN@ + name + STRUCT_LOOP@ + NEXT_EVENT@ + STRUCT_MATCH@
            + struct_field_deserializers_text(shape) + STRUCT_CLOSE@
    }
}

pub fn generate_struct_deserializer(name: &str, shape: &Shape) -> (r: String)
    ensures
        r@ == struct_deserializer_text(name@, *shape),
{
    if shape.members.len() == 0 {
        return String::from_str(EMPTY_STRUCT_OPEN).concat(name).concat(EMPTY_STRUCT_CLOSE);
    }
    let fields = generate_struct_field_deserializers(shape);
    String::from_str(STRUCT_OPEN).concat(name).concat(STRUCT_LOOP).concat(NEXT_EVENT).concat(
        STRUCT_MATCH,
    ).concat(fields.as_str()).concat(STRUCT_CLOSE)
}

pub const BODY_OPEN: &'static str = " {
";

pub const UNIT_CLOSE: &'static str = "
    }
}
";

pub const DESERIALIZER_IMPL: &'static str = "Deserializer;
impl ";

pub const DESERIALIZER_OPEN: &'static str = "Deserializer {
    #[allow(unused_variables)]
    fn deserialize<'a, T: Peek + Next>(tag_name: &str, stack: &mut T) -> Result<";

pub const DESERIALIZER_RESULT: &'static str = ", XmlParseError> {
";

/// The root tag by the common convention: a trailing "Result" becomes "Response".
pub open spec fn conventional_tag(n: Seq<char>) -> Seq<char> {
    if ends_with(n, "Result"@) {
        n.subrange(0, n.len() - 6) + "Response"@
    } else {
        n
    }
}

/// The root tag by the common convention, or `None` where the name does
/// not end in "Result".
pub fn conventional_response_tag(name: &str) -> (r: Option<String>)
    ensures
        ends_with(name@, "Result"@) ==> opt_view_is(r, conventional_tag(name@)),
        !ends_with(name@, "Result"@) ==> r is None,
{
    if str_ends_with(name, "Result") {
        proof {
            reveal_strlit("Result");
        }
        Some(drop_last_chars(name, 6).concat("Response"))
    } else {
        None
    }
}

pub open spec fn opt_view_is(r: Option<String>, v: Seq<char>) -> bool {
    r matches Some(s) && s@ == v
}

} // verus!
