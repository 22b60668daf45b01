//! The shape model of a service: operations and the named shapes they refer to.
//! Generation reads it and never changes it.

use vstd::prelude::*;
use crate::text::str_eq;

verus! {

/// The kind of a shape.
#[derive(Clone, Copy, Debug, PartialEq, Eq, Structural)]
pub enum ShapeType {
    Structure,
    List,
    /// A map from keys to values.
    Mapping,
    String,
    Integer,
    Long,
    Double,
    Float,
    Boolean,
    Blob,
    Timestamp,
}

/// A typed reference to another shape, with its wire metadata.
#[derive(Clone, Debug)]
pub struct Member {
    /// Name of the shape referred to.
    pub shape: String,
    /// Where the value travels: "uri", "header", "body", "querystring", or nowhere in particular.
    pub location: Option<String>,
    /// The wire-visible name; the member's own name stands in when absent.
    pub location_name: Option<String>,
    /// The value is raw bytes sent as they are.
    pub streaming: bool,
    /// The member is left out of generation.
    pub deprecated: bool,
}

/// One entry of a structure's ordered member mapping.
#[derive(Clone, Debug)]
pub struct StructureMember {
    pub name: String,
    pub member: Member,
}

/// A named type of the service.
#[derive(Clone, Debug)]
pub struct Shape {
    pub shape_type: ShapeType,
    /// The members of a structure, in declaration order.
    pub members: Vec<StructureMember>,
    /// Names of the required members of a structure.
    pub required: Vec<String>,
    /// The member of a structure sent as the whole body, if any.
    pub payload: Option<String>,
    /// The element of a list.
    pub member: Option<Member>,
    /// The key of a map.
    pub key: Option<Member>,
    /// The value of a map.
    pub value: Option<Member>,
}

/// A shape with its name.
#[derive(Clone, Debug)]
pub struct NamedShape {
    pub name: String,
    pub shape: Shape,
}

/// A reference from an operation to its input or output shape.
#[derive(Clone, Debug)]
pub struct ShapeRef {
    pub shape: String,
}

/// How an operation travels over HTTP.
#[derive(Clone, Debug)]
pub struct Http {
    pub method: String,
    /// The path, possibly with `{placeholder}` segments.
    pub request_uri: String,
}

/// One remote procedure of the service.
#[derive(Clone, Debug)]
pub struct Operation {
    pub name: String,
    pub documentation: Option<String>,
    pub http: Http,
    pub input: Option<ShapeRef>,
    pub output: Option<ShapeRef>,
}

#[derive(Clone, Debug)]
pub struct Metadata {
    pub endpoint_prefix: String,
    pub api_version: String,
    pub service_full_name: String,
    pub service_abbreviation: Option<String>,
}

/// A remote API: its metadata, operations in declaration order, and shapes.
#[derive(Clone, Debug)]
pub struct Service {
    pub metadata: Metadata,
    pub operations: Vec<Operation>,
    pub shapes: Vec<NamedShape>,
}

/// The wire name of a structure member called `name`.
pub open spec fn member_tag(name: Seq<char>, m: Member) -> Seq<char> {
    match m.location_name {
        Some(l) => l@,
        None => name,
    }
}

/// Whether the member travels at the given location.
pub open spec fn located_at(m: Member, loc: Seq<char>) -> bool {
    m.location matches Some(l) && l@ == loc
}

/// The first shape called `name`.
pub open spec fn find_shape(shapes: Seq<NamedShape>, name: Seq<char>) -> Option<Shape>
    decreases shapes.len(),
{
    if shapes.len() == 0 {
        None
    } else if shapes[0].name@ == name {
        Some(shapes[0].shape)
    } else {
        find_shape(shapes.drop_first(), name)
    }
}

/// The first member called `name`.
pub open spec fn find_member(members: Seq<StructureMember>, name: Seq<char>) -> Option<Member>
    decreases members.len(),
{
    if members.len() == 0 {
        None
    } else if members[0].name@ == name {
        Some(members[0].member)
    } else {
        find_member(members.drop_first(), name)
    }
}

/// The first operation called `name`.
pub open spec fn find_operation(ops: Seq<Operation>, name: Seq<char>) -> Option<Operation>
    decreases ops.len(),
{
    if ops.len() == 0 {
        None
    } else if ops[0].name@ == name {
        Some(ops[0])
    } else {
        find_operation(ops.drop_first(), name)
    }
}

/// A shape found among well-formed shapes is well formed.
pub proof fn lemma_found_shape_wf(shapes: Seq<NamedShape>, name: Seq<char>)
    requires
        forall|i: int| 0 <= i < shapes.len() ==> (#[trigger] shapes[i]).shape.wf(),
        find_shape(shapes, name) is Some,
    ensures
        find_shape(shapes, name)->0.wf(),
    decreases shapes.len(),
{
    if shapes[0].name@ != name {
        let rest = shapes.drop_first();
        assert forall|i: int| 0 <= i < rest.len() implies (#[trigger] rest[i]).shape.wf() by {
            assert(rest[i] == shapes[i + 1]);
        }
        lemma_found_shape_wf(rest, name);
    }
}

impl Member {
    /// The wire name of a list element or map entry part: its location name,
    /// else the name of its shape.
    pub open spec fn tag_name_spec(&self) -> Seq<char> {
        match self.location_name {
            Some(l) => l@,
            None => self.shape@,
        }
    }

    pub fn tag_name(&self) -> (r: String)
        ensures
            r@ == self.tag_name_spec(),
    {
        match &self.location_name {
            Some(l) => l.clone(),
            None => self.shape.clone(),
        }
    }

    pub fn streaming(&self) -> (r: bool)
        ensures
            r == self.streaming,
    {
        self.streaming
    }

    pub fn deprecated(&self) -> (r: bool)
        ensures
            r == self.deprecated,
    {
        self.deprecated
    }
}

impl Shape {
    /// Whether the member called `name` is required.
    pub open spec fn is_required(&self, name: Seq<char>) -> bool {
        exists|i: int| 0 <= i < self.required.len() && #[trigger] self.required[i]@ == name
    }

    /// The sub-members that the kind of the shape calls for are present, and a
    /// payload names one of the members.
    pub open spec fn wf(&self) -> bool {
        &&& self.shape_type == ShapeType::List ==> self.member is Some
        &&& self.shape_type == ShapeType::Mapping ==> self.key is Some && self.value is Some
        &&& self.payload matches Some(p) ==> find_member(self.members@, p@) is Some
    }

    /// Whether the shape is well formed.
    pub fn is_well_formed(&self) -> (r: bool)
        ensures
            r == self.wf(),
    {
        let parts = match self.shape_type {
            ShapeType::List => self.member.is_some(),
            ShapeType::Mapping => self.key.is_some() && self.value.is_some(),
            _ => true,
        };
        let payload = match &self.payload {
            Some(p) => self.get_member(p.as_str()).is_some(),
            None => true,
        };
        parts && payload
    }

    pub fn required(&self, name: &str) -> (r: bool)
        ensures
            r == self.is_required(name@),
    {
        let mut i: usize = 0;
        while i < self.required.len()
            invariant
                0 <= i <= self.required.len(),
                forall|j: int| 0 <= j < i ==> self.required[j]@ != name@,
            decreases self.required.len() - i,
        {
            if str_eq(self.required[i].as_str(), name) {
                return true;
            }
            i += 1;
        }
        false
    }

    /// Name of the element shape of a list.
    pub fn member(&self) -> (r: &str)
        requires
            self.member is Some,
        ensures
            r@ == self.member->0.shape@,
    {
        match &self.member {
            Some(m) => m.shape.as_str(),
            None => "",
        }
    }

    /// Name of the key shape of a map.
    pub fn key(&self) -> (r: &str)
        requires
            self.key is Some,
        ensures
            r@ == self.key->0.shape@,
    {
        match &self.key {
            Some(m) => m.shape.as_str(),
            None => "",
        }
    }

    /// Name of the value shape of a map.
    pub fn value(&self) -> (r: &str)
        requires
            self.value is Some,
        ensures
            r@ == self.value->0.shape@,
    {
        match &self.value {
            Some(m) => m.shape.as_str(),
            None => "",
        }
    }

    /// The member called `name`, if there is one.
    pub fn get_member(&self, name: &str) -> (r: Option<&Member>)
        ensures
            match r {
                Some(m) => find_member(self.members@, name@) == Some(*m),
                None => find_member(self.members@, name@) is None,
            },
    {
        let mut i: usize = 0;
        assert(self.members@.skip(0) =~= self.members@);
        while i < self.members.len()
            invariant
                0 <= i <= self.members.len(),
                find_member(self.members@, name@) == find_member(self.members@.skip(i as int), name@),
            decreases self.members.len() - i,
        {
            assert(self.members@.skip(i as int).drop_first() =~= self.members@.skip(i + 1));
            if str_eq(self.members[i].name.as_str(), name) {
                return Some(&self.members[i].member);
            }
            i += 1;
        }
        None
    }
}

impl Operation {
    pub open spec fn error_type_name_spec(&self) -> Seq<char> {
        self.name@ + "Error"@
    }

    /// Name of the error type that a failed call of the operation returns.
    pub fn error_type_name(&self) -> (r: String)
        ensures
            r@ == self.error_type_name_spec(),
    {
        self.name.clone().concat("Error")
    }

    pub open spec fn output_shape_or_spec(&self, default: Seq<char>) -> Seq<char> {
        match self.output {
            Some(o) => o.shape@,
            None => default,
        }
    }

    /// Name of the output shape, or `default` where there is none.
    pub fn output_shape_or(&self, default: &str) -> (r: String)
        ensures
            r@ == self.output_shape_or_spec(default@),
    {
        match &self.output {
            Some(o) => o.shape.clone(),
            None => String::from_str(default),
        }
    }

    /// Name of the input shape.
    pub fn input_shape(&self) -> (r: &str)
        requires
            self.input is Some,
        ensures
            r@ == self.input->0.shape@,
    {
        match &self.input {
            Some(i) => i.shape.as_str(),
            None => "",
        }
    }
}

impl Service {
    /// Every shape is well formed, and every input that an operation names exists.
    pub open spec fn wf(&self) -> bool {
        &&& forall|i: int| 0 <= i < self.shapes.len() ==> (#[trigger] self.shapes[i]).shape.wf()
        &&& forall|i: int|
            0 <= i < self.operations.len() && (#[trigger] self.operations[i]).input is Some
                ==> find_shape(self.shapes@, self.operations[i].input->0.shape@) is Some
    }

    /// Whether the service is well formed.
    pub fn is_well_formed(&self) -> (r: bool)
        ensures
            r == self.wf(),
    {
        let mut i: usize = 0;
        while i < self.shapes.len()
            invariant
                0 <= i <= self.shapes.len(),
                forall|j: int| 0 <= j < i ==> (#[trigger] self.shapes[j]).shape.wf(),
            decreases self.shapes.len() - i,
        {
            if !self.shapes[i].shape.is_well_formed() {
                return false;
            }
            i += 1;
        }
        let mut k: usize = 0;
        while k < self.operations.len()
            invariant
                0 <= k <= self.operations.len(),
                forall|j: int| 0 <= j < self.shapes.len() ==> (#[trigger] self.shapes[j]).shape.wf(),
                forall|j: int|
                    0 <= j < k && (#[trigger] self.operations[j]).input is Some ==> find_shape(
                        self.shapes@,
                        self.operations[j].input->0.shape@,
                    ) is Some,
            decreases self.operations.len() - k,
        {
            match &self.operations[k].input {
                Some(input) => {
                    if self.get_shape(input.shape.as_str()).is_none() {
                        return false;
                    }
                },
                None => {},
            }
            k += 1;
        }
        true
    }

    pub open spec fn service_type_name_spec(&self) -> Seq<char> {
        let n = match self.metadata.service_abbreviation {
            Some(a) => a@,
            None => self.metadata.service_full_name@,
        };
        n.filter(|c: char| c != ' ')
    }

    /// The service's name as a type name: its abbreviation, else its full
    /// name, without spaces.
    pub fn service_type_name(&self) -> (r: String)
        ensures
            r@ == self.service_type_name_spec(),
    {
        let n = match &self.metadata.service_abbreviation {
            Some(a) => a.as_str(),
            None => self.metadata.service_full_name.as_str(),
        };
        let len = n.unicode_len();
        let mut r = String::new();
        let mut i: usize = 0;
        while i < len
            invariant
                len == n@.len(),
                0 <= i <= len,
                r@ == n@.take(i as int).filter(|c: char| c != ' '),
            decreases len - i,
        {
            let c = n.get_char(i);
            proof {
                assert(n@.take(i + 1).drop_last() =~= n@.take(i as int));
                reveal(Seq::filter);
            }
            if c != ' ' {
                crate::text::push_char(&mut r, c);
            }
            i += 1;
        }
        assert(n@.take(len as int) =~= n@);
        r
    }

    pub open spec fn client_type_name_spec(&self) -> Seq<char> {
        self.service_type_name_spec() + "Client"@
    }

    /// Name of the generated client type.
    pub fn client_type_name(&self) -> (r: String)
        ensures
            r@ == self.client_type_name_spec(),
    {
        self.service_type_name().concat("Client")
    }

    /// The shape called `name`, if there is one.
    pub fn get_shape(&self, name: &str) -> (r: Option<&Shape>)
        ensures
            match r {
                Some(s) => find_shape(self.shapes@, name@) == Some(*s),
                None => find_shape(self.shapes@, name@) is None,
            },
    {
        let mut i: usize = 0;
        assert(self.shapes@.skip(0) =~= self.shapes@);
        while i < self.shapes.len()
            invariant
                0 <= i <= self.shapes.len(),
                find_shape(self.shapes@, name@) == find_shape(self.shapes@.skip(i as int), name@),
            decreases self.shapes.len() - i,
        {
            assert(self.shapes@.skip(i as int).drop_first() =~= self.shapes@.skip(i + 1));
            if str_eq(self.shapes[i].name.as_str(), name) {
                return Some(&self.shapes[i].shape);
            }
            i += 1;
        }
        None
    }

    /// The operation called `name`, if there is one.
    pub fn get_operation(&self, name: &str) -> (r: Option<&Operation>)
        ensures
            match r {
                Some(o) => find_operation(self.operations@, name@) == Some(*o),
                None => find_operation(self.operations@, name@) is None,
            },
    {
        let mut i: usize = 0;
        assert(self.operations@.skip(0) =~= self.operations@);
        while i < self.operations.len()
            invariant
                0 <= i <= self.operations.len(),
                find_operation(self.operations@, name@) == find_operation(
                    self.operations@.skip(i as int),
                    name@,
                ),
            decreases self.operations.len() - i,
        {
            assert(self.operations@.skip(i as int).drop_first() =~= self.operations@.skip(i + 1));
            if str_eq(self.operations[i].name.as_str(), name) {
                return Some(&self.operations[i]);
            }
            i += 1;
        }
        None
    }
}

} // verus!
