//! The endpoints of an OpenAPI document, read from a model of the parts of the
//! document that the reference pages show.
use vstd::prelude::*;

use super::types::{ApiEndpoint, ApiParameter, ApiRequestBody, ApiResponse, SchemaField};
use crate::error::OxidocError;
use crate::text::str_eq;

verus! {

broadcast use vstd::string::group_string_axioms;

/// A schema, or a `$ref` to one.
pub enum SchemaRef {
    Reference(String),
    Item(Box<SchemaModel>),
}

/// The kind of a schema, as far as the pages show it.
pub enum SchemaKind {
    String,
    Number,
    Integer,
    Boolean,
    Array { items: Option<SchemaRef> },
    /// The properties in the order of the document, and the names of the required ones.
    Object { properties: Vec<(String, SchemaRef)>, required: Vec<String> },
    /// `oneOf`, `allOf`, `anyOf`, `not`, or a schema without a type.
    Other,
}

/// A schema: its kind and its description.
pub struct SchemaModel {
    pub kind: SchemaKind,
    pub description: Option<String>,
}

/// Where a parameter goes.
pub enum Location {
    Query,
    Path,
    Header,
    Cookie,
}

/// How a parameter's value is described: by a schema or by media types.
pub enum ParameterFormat {
    Schema(SchemaRef),
    Content,
}

/// A parameter of an operation.
pub struct ParameterModel {
    pub location: Location,
    pub name: String,
    pub required: bool,
    pub description: Option<String>,
    pub format: ParameterFormat,
}

/// An object of the document, or a `$ref` to one.
pub enum Referenced<T> {
    Reference(String),
    Item(T),
}

/// One media type of a body: its name and its schema.
pub struct MediaModel {
    pub content_type: String,
    pub schema: Option<SchemaRef>,
}

/// A request body; its media types in the order of the document.
pub struct RequestBodyModel {
    pub description: Option<String>,
    pub content: Vec<MediaModel>,
    pub required: bool,
}

/// A response; its media types in the order of the document.
pub struct ResponseModel {
    pub description: String,
    pub content: Vec<MediaModel>,
}

/// The HTTP method of an operation.
pub enum Method {
    Get,
    Put,
    Post,
    Delete,
    Options,
    Head,
    Patch,
    Trace,
}

/// One operation of a path.
pub struct OperationModel {
    pub path: String,
    pub method: Method,
    pub operation_id: Option<String>,
    pub summary: Option<String>,
    pub description: Option<String>,
    pub tags: Vec<String>,
    pub parameters: Vec<Referenced<ParameterModel>>,
    pub request_body: Option<Referenced<RequestBodyModel>>,
    pub default_response: Option<Referenced<ResponseModel>>,
    /// The responses by status code (`200`, `4XX`, ...), in the order of the document.
    pub responses: Vec<(String, Referenced<ResponseModel>)>,
    pub deprecated: bool,
}

/// An OpenAPI document: its operations, path by path and, in each path, in the order
/// get, put, post, delete, options, head, patch, trace; and the schemas of its
/// components, by name.
pub struct OpenApiModel {
    pub operations: Vec<OperationModel>,
    pub schemas: Vec<(String, SchemaRef)>,
}

// ---------------------------------------------------------------------------
// What is read
// ---------------------------------------------------------------------------

/// The text after the last `/` of a reference (all of it when it has none).
pub open spec fn last_segment(r: Seq<char>) -> Seq<char>
    decreases r.len(),
{
    if r.len() == 0 {
        Seq::<char>::empty()
    } else if r.last() == '/' {
        Seq::<char>::empty()
    } else {
        last_segment(r.drop_last()).push(r.last())
    }
}

/// The name of a schema kind; `object` for one without a type.
pub open spec fn kind_name(k: SchemaKind) -> Seq<char> {
    match k {
        SchemaKind::String => "string"@,
        SchemaKind::Number => "number"@,
        SchemaKind::Integer => "integer"@,
        SchemaKind::Boolean => "boolean"@,
        SchemaKind::Array { .. } => "array"@,
        SchemaKind::Object { .. } => "object"@,
        SchemaKind::Other => "object"@,
    }
}

/// The type of a parameter's schema: the name a reference points to, else the kind.
pub open spec fn ref_type_name(sr: SchemaRef) -> Seq<char> {
    match sr {
        SchemaRef::Reference(r) => last_segment(r@),
        SchemaRef::Item(b) => kind_name(b.kind),
    }
}

/// The type of a body's schema: `array<item type>` for an array, else as for a
/// parameter.
pub open spec fn schema_type(s: SchemaModel) -> Seq<char>
    decreases s,
{
    match s.kind {
        SchemaKind::Array { items } => "array<"@ + match items {
            Some(i) => ref_schema_type(i),
            None => "object"@,
        } + ">"@,
        _ => kind_name(s.kind),
    }
}

/// The type of a body's schema or reference.
pub open spec fn ref_schema_type(sr: SchemaRef) -> Seq<char>
    decreases sr,
{
    match sr {
        SchemaRef::Reference(r) => last_segment(r@),
        SchemaRef::Item(b) => schema_type(*b),
    }
}

/// The component schema named `name`, where it is a schema and not a reference.
pub open spec fn lookup_schema(schemas: Seq<(String, SchemaRef)>, name: Seq<char>) -> Option<SchemaModel>
    decreases schemas.len(),
{
    if schemas.len() == 0 {
        None
    } else if schemas[0].0@ == name {
        match schemas[0].1 {
            SchemaRef::Item(b) => Some(*b),
            SchemaRef::Reference(_) => None,
        }
    } else {
        lookup_schema(schemas.drop_first(), name)
    }
}

/// Whether `name` is among `names`.
pub open spec fn names_contain(names: Seq<String>, name: Seq<char>) -> bool {
    exists|i: int| 0 <= i < names.len() && #[trigger] names[i]@ == name
}

/// An optional string as characters.
pub open spec fn opt_chars(o: Option<String>) -> Option<Seq<char>> {
    match o {
        Some(s) => Some(s@),
        None => None,
    }
}

/// `fs` are the fields of the properties `props`, with `req` the required names.
/// References are followed while `fuel` lasts: each one followed takes one.
pub open spec fn fields_ok(
    fs: Seq<SchemaField>,
    props: Seq<(String, SchemaRef)>,
    req: Seq<String>,
    schemas: Seq<(String, SchemaRef)>,
    fuel: nat,
) -> bool
    decreases fuel, props,
{
    if props.len() == 0 {
        fs.len() == 0
    } else {
        proof {
            assert(decreases_to!(props => props[props.len() - 1]));
        }
        &&& fs.len() == props.len()
        &&& fields_ok(fs.drop_last(), props.drop_last(), req, schemas, fuel)
        &&& field_ok(fs.last(), props.last(), req, schemas, fuel)
    }
}

/// `f` is the field of the property `prop`: its name, its type, whether it is
/// required, its description and its nested fields.
pub open spec fn field_ok(
    f: SchemaField,
    prop: (String, SchemaRef),
    req: Seq<String>,
    schemas: Seq<(String, SchemaRef)>,
    fuel: nat,
) -> bool
    decreases fuel, prop,
{
    &&& f.name@ == prop.0@
    &&& f.required == names_contain(req, prop.0@)
    &&& match prop.1 {
        SchemaRef::Reference(r) => {
            &&& f.field_type@ == last_segment(r@)
            &&& f.description is None
            &&& match lookup_schema(schemas, last_segment(r@)) {
                Some(s) => if fuel > 0 {
                    schema_fields_ok(f.children@, s, schemas, (fuel - 1) as nat)
                } else {
                    f.children@.len() == 0
                },
                None => f.children@.len() == 0,
            }
        },
        SchemaRef::Item(b) => {
            &&& f.field_type@ == kind_name(b.kind)
            &&& opt_chars(f.description) == opt_chars(b.description)
            &&& match b.kind {
                SchemaKind::Object { .. } => schema_fields_ok(f.children@, *b, schemas, fuel),
                SchemaKind::Array { items } => match items {
                    Some(i) => ref_fields_ok(f.children@, i, schemas, fuel),
                    None => f.children@.len() == 0,
                },
                _ => f.children@.len() == 0,
            }
        },
    }
}

/// `fs` are the fields of the component schema that the reference `r` names, while
/// fuel lasts; none where it names no schema.
pub open spec fn resolved_fields_ok(fs: Seq<SchemaField>, r: Seq<char>, schemas: Seq<(String, SchemaRef)>, fuel: nat) -> bool {
    match lookup_schema(schemas, last_segment(r)) {
        Some(s) => if fuel > 0 {
            schema_fields_ok(fs, s, schemas, (fuel - 1) as nat)
        } else {
            fs.len() == 0
        },
        None => fs.len() == 0,
    }
}

/// `fs` are the fields of the schema `s`: its properties for an object, its items'
/// for an array, none otherwise.
pub open spec fn schema_fields_ok(fs: Seq<SchemaField>, s: SchemaModel, schemas: Seq<(String, SchemaRef)>, fuel: nat) -> bool
    decreases fuel, s,
{
    match s.kind {
        SchemaKind::Object { properties, required } => fields_ok(fs, properties@, required@, schemas, fuel),
        SchemaKind::Array { items } => match items {
            Some(i) => ref_fields_ok(fs, i, schemas, fuel),
            None => fs.len() == 0,
        },
        _ => fs.len() == 0,
    }
}

/// `fs` are the fields of a schema or of the component a reference names.
pub open spec fn ref_fields_ok(fs: Seq<SchemaField>, sr: SchemaRef, schemas: Seq<(String, SchemaRef)>, fuel: nat) -> bool
    decreases fuel, sr,
{
    match sr {
        SchemaRef::Reference(r) => match lookup_schema(schemas, last_segment(r@)) {
            Some(s) => if fuel > 0 {
                schema_fields_ok(fs, s, schemas, (fuel - 1) as nat)
            } else {
                fs.len() == 0
            },
            None => fs.len() == 0,
        },
        SchemaRef::Item(b) => schema_fields_ok(fs, *b, schemas, fuel),
    }
}

/// The name of a parameter's location.
pub open spec fn location_name(l: Location) -> Seq<char> {
    match l {
        Location::Query => "query"@,
        Location::Path => "path"@,
        Location::Header => "header"@,
        Location::Cookie => "cookie"@,
    }
}

/// `p` is the parameter `m`: path parameters are always required; a parameter
/// described by media types has the type `object`.
pub open spec fn param_ok(p: ApiParameter, m: ParameterModel) -> bool {
    &&& p.name@ == m.name@
    &&& p.location@ == location_name(m.location)
    &&& p.required == (m.location is Path || m.required)
    &&& opt_chars(p.description) == opt_chars(m.description)
    &&& p.schema_type@ == match m.format {
        ParameterFormat::Schema(sr) => ref_type_name(sr),
        ParameterFormat::Content => "object"@,
    }
}

/// The parameters written out in the operation, references left aside.
pub open spec fn param_items(ps: Seq<Referenced<ParameterModel>>) -> Seq<ParameterModel>
    decreases ps.len(),
{
    if ps.len() == 0 {
        Seq::<ParameterModel>::empty()
    } else {
        param_items(ps.drop_last()) + match ps.last() {
            Referenced::Item(m) => seq![m],
            Referenced::Reference(_) => Seq::<ParameterModel>::empty(),
        }
    }
}

/// `out` are the parameters of `ps`, one for each written out, in order.
pub open spec fn params_ok(out: Seq<ApiParameter>, ps: Seq<Referenced<ParameterModel>>) -> bool {
    &&& out.len() == param_items(ps).len()
    &&& forall|k: int| 0 <= k < out.len() ==> param_ok(#[trigger] out[k], param_items(ps)[k])
}

/// The type and the fields of a body's first media type: those of its schema, else
/// `object` and none.
pub open spec fn media_ok(
    schema_type: Seq<char>,
    fields: Seq<SchemaField>,
    schema: Option<SchemaRef>,
    schemas: Seq<(String, SchemaRef)>,
    fuel: nat,
) -> bool {
    match schema {
        Some(sr) => schema_type == ref_schema_type(sr) && ref_fields_ok(fields, sr, schemas, fuel),
        None => schema_type == "object"@ && fields.len() == 0,
    }
}

/// `b` is the request body of the operation: none for a reference or a body without
/// media types; else read from its first media type.
pub open spec fn body_ok(
    b: Option<ApiRequestBody>,
    rb: Option<Referenced<RequestBodyModel>>,
    schemas: Seq<(String, SchemaRef)>,
    fuel: nat,
) -> bool {
    match rb {
        Some(Referenced::Item(body)) => if body.content@.len() > 0 {
            &&& b is Some
            &&& b->0.required == body.required
            &&& opt_chars(b->0.description) == opt_chars(body.description)
            &&& b->0.content_type@ == body.content@[0].content_type@
            &&& media_ok(b->0.schema_type@, b->0.fields@, body.content@[0].schema, schemas, fuel)
        } else {
            b is None
        },
        _ => b is None,
    }
}

/// `x` is the response `resp` with the status `status`, read from its first media type
/// where it has one.
pub open spec fn response_ok(
    x: ApiResponse,
    status: Seq<char>,
    resp: ResponseModel,
    schemas: Seq<(String, SchemaRef)>,
    fuel: nat,
) -> bool {
    &&& x.status@ == status
    &&& x.description@ == resp.description@
    &&& if resp.content@.len() > 0 {
        &&& opt_chars(x.content_type) == Some(resp.content@[0].content_type@)
        &&& x.schema_type is Some
        &&& media_ok(x.schema_type->0@, x.fields@, resp.content@[0].schema, schemas, fuel)
    } else {
        &&& x.content_type is None
        &&& x.schema_type is None
        &&& x.fields@.len() == 0
    }
}

/// The responses by status written out in the operation, references left aside.
pub open spec fn listed_responses(rs: Seq<(String, Referenced<ResponseModel>)>) -> Seq<(Seq<char>, ResponseModel)>
    decreases rs.len(),
{
    if rs.len() == 0 {
        Seq::<(Seq<char>, ResponseModel)>::empty()
    } else {
        listed_responses(rs.drop_last()) + match rs.last().1 {
            Referenced::Item(r) => seq![(rs.last().0@, r)],
            Referenced::Reference(_) => Seq::<(Seq<char>, ResponseModel)>::empty(),
        }
    }
}

/// The responses of an operation: the default one first, where it is written out,
/// then those by status.
pub open spec fn response_items(op: OperationModel) -> Seq<(Seq<char>, ResponseModel)> {
    default_items(op.default_response) + listed_responses(op.responses@)
}

/// The default response, where it is written out.
pub open spec fn default_items(d: Option<Referenced<ResponseModel>>) -> Seq<(Seq<char>, ResponseModel)> {
    match d {
        Some(Referenced::Item(r)) => seq![("default"@, r)],
        _ => Seq::<(Seq<char>, ResponseModel)>::empty(),
    }
}

/// `out` are the responses of the operation, in order.
pub open spec fn responses_ok(out: Seq<ApiResponse>, op: OperationModel, schemas: Seq<(String, SchemaRef)>, fuel: nat) -> bool {
    &&& out.len() == response_items(op).len()
    &&& forall|k: int|
        0 <= k < out.len() ==> response_ok(
            #[trigger] out[k],
            response_items(op)[k].0,
            response_items(op)[k].1,
            schemas,
            fuel,
        )
}

/// The name of a method, in capitals.
pub open spec fn method_name(m: Method) -> Seq<char> {
    match m {
        Method::Get => "GET"@,
        Method::Put => "PUT"@,
        Method::Post => "POST"@,
        Method::Delete => "DELETE"@,
        Method::Options => "OPTIONS"@,
        Method::Head => "HEAD"@,
        Method::Patch => "PATCH"@,
        Method::Trace => "TRACE"@,
    }
}

/// `e` is the endpoint of the operation `op`.
pub open spec fn endpoint_ok(e: ApiEndpoint, op: OperationModel, schemas: Seq<(String, SchemaRef)>, fuel: nat) -> bool {
    &&& e.path@ == op.path@
    &&& e.method@ == method_name(op.method)
    &&& opt_chars(e.operation_id) == opt_chars(op.operation_id)
    &&& opt_chars(e.summary) == opt_chars(op.summary)
    &&& opt_chars(e.description) == opt_chars(op.description)
    &&& e.tags@ == op.tags@
    &&& params_ok(e.parameters@, op.parameters@)
    &&& body_ok(e.request_body, op.request_body, schemas, fuel)
    &&& responses_ok(e.responses@, op, schemas, fuel)
    &&& e.deprecated == op.deprecated
}

// ---------------------------------------------------------------------------
// Reading
// ---------------------------------------------------------------------------

/// The text after the last `/` of `r`.
fn last_segment_of(r: &str) -> (s: String)
    ensures
        s@ == last_segment(r@),
{
    let v = crate::text::chars_of(r);
    let mut j: usize = v.len();
    assert(v@.take(j as int) =~= v@);
    assert(v@.subrange(j as int, j as int) =~= Seq::<char>::empty());
    assert(v@ + Seq::<char>::empty() =~= v@);
    while j > 0 && v[j - 1] != '/'
        invariant
            j <= v@.len(),
            v@ == r@,
            last_segment(v@) == last_segment(v@.take(j as int)) + v@.subrange(j as int, v@.len() as int),
        decreases j,
    {
        proof {
            let t = v@.take(j as int);
            assert(t.drop_last() =~= v@.take(j - 1));
            assert(t.last() == v@[j - 1]);
            assert(v@.subrange(j - 1, v@.len() as int) =~= seq![v@[j - 1]] + v@.subrange(j as int, v@.len() as int));
            assert(last_segment(t) == last_segment(v@.take(j - 1)).push(v@[j - 1]));
            assert(last_segment(v@.take(j - 1)).push(v@[j - 1]) + v@.subrange(j as int, v@.len() as int)
                =~= last_segment(v@.take(j - 1)) + v@.subrange(j - 1, v@.len() as int));
        }
        j = j - 1;
    }
    proof {
        if j == 0 {
            assert(v@.take(0) =~= Seq::<char>::empty());
        } else {
            assert(v@.take(j as int).last() == '/');
        }
        assert(last_segment(v@.take(j as int)) =~= Seq::<char>::empty());
    }
    let tail = crate::text::sub_chars(&v, j, v.len());
    let s = crate::text::string_from_chars(&tail);
    proof {
        assert(last_segment(v@) =~= Seq::<char>::empty() + v@.subrange(j as int, v@.len() as int));
    }
    s
}

/// The component schema named `name`, where it is a schema.
fn lookup_schema_of<'a>(schemas: &'a Vec<(String, SchemaRef)>, name: &str) -> (r: Option<&'a SchemaModel>)
    ensures
        match lookup_schema(schemas@, name@) {
            Some(s) => r is Some && *r->0 == s,
            None => r is None,
        },
{
    let mut i: usize = 0;
    assert(schemas@.skip(0) =~= schemas@);
    while i < schemas.len()
        invariant
            i <= schemas@.len(),
            lookup_schema(schemas@, name@) == lookup_schema(schemas@.skip(i as int), name@),
        decreases schemas@.len() - i,
    {
        proof {
            let t = schemas@.skip(i as int);
            assert(t[0] == schemas@[i as int]);
            assert(t.drop_first() =~= schemas@.skip(i + 1));
        }
        if str_eq(schemas[i].0.as_str(), name) {
            return match &schemas[i].1 {
                SchemaRef::Item(b) => Some(&**b),
                SchemaRef::Reference(_) => None,
            };
        }
        i = i + 1;
    }
    proof {
        assert(schemas@.skip(i as int) =~= Seq::<(String, SchemaRef)>::empty());
    }
    None
}

/// Whether `name` is among `names`.
fn names_contain_exec(names: &Vec<String>, name: &str) -> (b: bool)
    ensures
        b == names_contain(names@, name@),
{
    let mut i: usize = 0;
    while i < names.len()
        invariant
            i <= names@.len(),
            forall|k: int| 0 <= k < i ==> names@[k]@ != name@,
        decreases names@.len() - i,
    {
        if str_eq(names[i].as_str(), name) {
            assert(names@[i as int]@ == name@);
            return true;
        }
        i = i + 1;
    }
    false
}

/// A copy of an optional string.
fn copy_opt(o: &Option<String>) -> (r: Option<String>)
    ensures
        opt_chars(r) == opt_chars(*o),
{
    match o {
        Some(s) => Some(s.clone()),
        None => None,
    }
}

/// The fields of the component schema that the reference `r` names.
fn resolved_fields(r: &str, schemas: &Vec<(String, SchemaRef)>, fuel: usize) -> (fs: Vec<SchemaField>)
    ensures
        resolved_fields_ok(fs@, r@, schemas@, fuel as nat),
    decreases fuel, 2nat, schemas@,
{
    let name = last_segment_of(r);
    match lookup_schema_of(schemas, name.as_str()) {
        Some(s) => if fuel > 0 {
            schema_fields(s, schemas, fuel - 1)
        } else {
            Vec::new()
        },
        None => Vec::new(),
    }
}

/// The fields of the properties `props`.
fn fields_of(props: &Vec<(String, SchemaRef)>, req: &Vec<String>, schemas: &Vec<(String, SchemaRef)>, fuel: usize) -> (fs: Vec<SchemaField>)
    ensures
        fields_ok(fs@, props@, req@, schemas@, fuel as nat),
    decreases fuel, 3nat, props@,
{
    let mut fs: Vec<SchemaField> = Vec::new();
    let mut i: usize = 0;
    while i < props.len()
        invariant
            i <= props@.len(),
            fields_ok(fs@, props@.take(i as int), req@, schemas@, fuel as nat),
        decreases props@.len() - i,
    {
        proof {
            assert(decreases_to!(props@ => props@[i as int]));
        }
        let f = field_of(&props[i], req, schemas, fuel);
        let ghost before = fs@;
        fs.push(f);
        proof {
            let t = props@.take(i + 1);
            assert(t.drop_last() =~= props@.take(i as int));
            assert(t.last() == props@[i as int]);
            assert(fs@.drop_last() =~= before);
        }
        i = i + 1;
    }
    proof {
        assert(props@.take(i as int) =~= props@);
    }
    fs
}

/// The field of one property.
fn field_of(prop: &(String, SchemaRef), req: &Vec<String>, schemas: &Vec<(String, SchemaRef)>, fuel: usize) -> (f: SchemaField)
    ensures
        field_ok(f, *prop, req@, schemas@, fuel as nat),
    decreases fuel, 3nat, *prop,
{
    let name = prop.0.clone();
    let required = names_contain_exec(req, prop.0.as_str());
    match &prop.1 {
        SchemaRef::Reference(r) => {
            let field_type = last_segment_of(r.as_str());
            let children = resolved_fields(r.as_str(), schemas, fuel);
            SchemaField { name, field_type, required, description: None, children }
        },
        SchemaRef::Item(b) => {
            let field_type = kind_name_of(&b.kind);
            let description = copy_opt(&b.description);
            let children = match &b.kind {
                SchemaKind::Object { .. } => schema_fields(&**b, schemas, fuel),
                SchemaKind::Array { items } => match items {
                    Some(i) => ref_fields(i, schemas, fuel),
                    None => Vec::new(),
                },
                _ => Vec::new(),
            };
            SchemaField { name, field_type, required, description, children }
        },
    }
}

/// The fields of a schema.
fn schema_fields(s: &SchemaModel, schemas: &Vec<(String, SchemaRef)>, fuel: usize) -> (fs: Vec<SchemaField>)
    ensures
        schema_fields_ok(fs@, *s, schemas@, fuel as nat),
    decreases fuel, 3nat, *s,
{
    match &s.kind {
        SchemaKind::Object { properties, required } => fields_of(properties, required, schemas, fuel),
        SchemaKind::Array { items } => match items {
            Some(i) => ref_fields(i, schemas, fuel),
            None => Vec::new(),
        },
        _ => Vec::new(),
    }
}

/// The fields of a schema or of the component that a reference names.
fn ref_fields(sr: &SchemaRef, schemas: &Vec<(String, SchemaRef)>, fuel: usize) -> (fs: Vec<SchemaField>)
    ensures
        ref_fields_ok(fs@, *sr, schemas@, fuel as nat),
    decreases fuel, 3nat, *sr,
{
    match sr {
        SchemaRef::Reference(r) => resolved_fields(r.as_str(), schemas, fuel),
        SchemaRef::Item(b) => schema_fields(&**b, schemas, fuel),
    }
}

/// The name of a schema kind.
fn kind_name_of(k: &SchemaKind) -> (s: String)
    ensures
        s@ == kind_name(*k),
{
    match k {
        SchemaKind::String => String::from_str("string"),
        SchemaKind::Number => String::from_str("number"),
        SchemaKind::Integer => String::from_str("integer"),
        SchemaKind::Boolean => String::from_str("boolean"),
        SchemaKind::Array { .. } => String::from_str("array"),
        SchemaKind::Object { .. } => String::from_str("object"),
        SchemaKind::Other => String::from_str("object"),
    }
}

/// The type of a schema or reference, as for a body.
fn ref_schema_type_of(sr: &SchemaRef) -> (t: String)
    ensures
        t@ == ref_schema_type(*sr),
    decreases *sr, 1nat,
{
    match sr {
        SchemaRef::Reference(r) => last_segment_of(r.as_str()),
        SchemaRef::Item(b) => schema_type_of(&**b),
    }
}

/// The type of a schema, as for a body.
fn schema_type_of(s: &SchemaModel) -> (t: String)
    ensures
        t@ == schema_type(*s),
    decreases *s, 1nat,
{
    match &s.kind {
        SchemaKind::Array { items } => {
            let mut t = String::from_str("array<");
            match items {
                Some(i) => {
                    let inner = ref_schema_type_of(i);
                    t.append(inner.as_str());
                },
                None => t.append("object"),
            }
            t.append(">");
            t
        },
        _ => kind_name_of(&s.kind),
    }
}

/// The parameter `m`.
fn parameter_of(m: &ParameterModel) -> (p: ApiParameter)
    ensures
        param_ok(p, *m),
{
    let (location, required) = match m.location {
        Location::Query => (String::from_str("query"), m.required),
        Location::Path => (String::from_str("path"), true),
        Location::Header => (String::from_str("header"), m.required),
        Location::Cookie => (String::from_str("cookie"), m.required),
    };
    let schema_type = match &m.format {
        ParameterFormat::Schema(sr) => match sr {
            SchemaRef::Reference(r) => last_segment_of(r.as_str()),
            SchemaRef::Item(b) => kind_name_of(&b.kind),
        },
        ParameterFormat::Content => String::from_str("object"),
    };
    ApiParameter { name: m.name.clone(), location, required, description: copy_opt(&m.description), schema_type }
}

/// The parameters written out in an operation.
fn parameters_of(ps: &Vec<Referenced<ParameterModel>>) -> (out: Vec<ApiParameter>)
    ensures
        params_ok(out@, ps@),
{
    let mut out: Vec<ApiParameter> = Vec::new();
    let mut i: usize = 0;
    while i < ps.len()
        invariant
            i <= ps@.len(),
            params_ok(out@, ps@.take(i as int)),
        decreases ps@.len() - i,
    {
        proof {
            let t = ps@.take(i + 1);
            assert(t.drop_last() =~= ps@.take(i as int));
            assert(t.last() == ps@[i as int]);
        }
        let ghost before = out@;
        match &ps[i] {
            Referenced::Item(m) => {
                out.push(parameter_of(m));
                proof {
                    let items = param_items(ps@.take(i + 1));
                    assert(items =~= param_items(ps@.take(i as int)).push(*m));
                    assert forall|k: int| 0 <= k < out@.len() implies param_ok(#[trigger] out@[k], items[k]) by {
                        if k < before.len() {
                            assert(out@[k] == before[k]);
                        }
                    }
                }
            },
            Referenced::Reference(_) => {
                proof {
                    assert(param_items(ps@.take(i + 1)) =~= param_items(ps@.take(i as int)));
                }
            },
        }
        i = i + 1;
    }
    proof {
        assert(ps@.take(i as int) =~= ps@);
    }
    out
}

/// The type and the fields of a media type's schema.
fn media_of(schema: &Option<SchemaRef>, schemas: &Vec<(String, SchemaRef)>, fuel: usize) -> (r: (String, Vec<SchemaField>))
    ensures
        media_ok(r.0@, r.1@, *schema, schemas@, fuel as nat),
{
    match schema {
        Some(sr) => (ref_schema_type_of(sr), ref_fields(sr, schemas, fuel)),
        None => (String::from_str("object"), Vec::new()),
    }
}

/// The request body of an operation.
fn request_body_of(rb: &Option<Referenced<RequestBodyModel>>, schemas: &Vec<(String, SchemaRef)>, fuel: usize) -> (b: Option<ApiRequestBody>)
    ensures
        body_ok(b, *rb, schemas@, fuel as nat),
{
    match rb {
        Some(Referenced::Item(body)) => {
            if body.content.len() > 0 {
                let first = &body.content[0];
                let (schema_type, fields) = media_of(&first.schema, schemas, fuel);
                Some(
                    ApiRequestBody {
                        required: body.required,
                        description: copy_opt(&body.description),
                        content_type: first.content_type.clone(),
                        fields,
                        schema_type,
                    },
                )
            } else {
                None
            }
        },
        _ => None,
    }
}

/// One response with its status.
fn response_of(status: String, resp: &ResponseModel, schemas: &Vec<(String, SchemaRef)>, fuel: usize) -> (x: ApiResponse)
    ensures
        response_ok(x, status@, *resp, schemas@, fuel as nat),
{
    if resp.content.len() > 0 {
        let first = &resp.content[0];
        let (schema_type, fields) = media_of(&first.schema, schemas, fuel);
        ApiResponse {
            status,
            description: resp.description.clone(),
            content_type: Some(first.content_type.clone()),
            fields,
            schema_type: Some(schema_type),
        }
    } else {
        ApiResponse {
            status,
            description: resp.description.clone(),
            content_type: None,
            fields: Vec::new(),
            schema_type: None,
        }
    }
}

/// The responses of an operation: the default one, then those by status.
fn responses_of(op: &OperationModel, schemas: &Vec<(String, SchemaRef)>, fuel: usize) -> (out: Vec<ApiResponse>)
    ensures
        responses_ok(out@, *op, schemas@, fuel as nat),
{
    let mut out: Vec<ApiResponse> = Vec::new();
    let ghost first = default_items(op.default_response);
    match &op.default_response {
        Some(Referenced::Item(r)) => {
            out.push(response_of(String::from_str("default"), r, schemas, fuel));
        },
        _ => {},
    }
    let rs = &op.responses;
    let mut i: usize = 0;
    proof {
        assert(listed_responses(rs@.take(0)) =~= Seq::<(Seq<char>, ResponseModel)>::empty());
        assert(first + listed_responses(rs@.take(0)) =~= first);
    }
    while i < rs.len()
        invariant
            i <= rs@.len(),
            rs@ == op.responses@,
            out@.len() == (first + listed_responses(rs@.take(i as int))).len(),
            forall|k: int|
                0 <= k < out@.len() ==> response_ok(
                    #[trigger] out@[k],
                    (first + listed_responses(rs@.take(i as int)))[k].0,
                    (first + listed_responses(rs@.take(i as int)))[k].1,
                    schemas@,
                    fuel as nat,
                ),
        decreases rs@.len() - i,
    {
        let ghost before = out@;
        let ghost prev = first + listed_responses(rs@.take(i as int));
        proof {
            let t = rs@.take(i + 1);
            assert(t.drop_last() =~= rs@.take(i as int));
            assert(t.last() == rs@[i as int]);
        }
        match &rs[i].1 {
            Referenced::Item(r) => {
                out.push(response_of(rs[i].0.clone(), r, schemas, fuel));
                proof {
                    let next = first + listed_responses(rs@.take(i + 1));
                    assert(next =~= prev.push((rs@[i as int].0@, *r)));
                    assert forall|k: int| 0 <= k < out@.len() implies response_ok(
                        #[trigger] out@[k],
                        next[k].0,
                        next[k].1,
                        schemas@,
                        fuel as nat,
                    ) by {
                        if k < before.len() {
                            assert(out@[k] == before[k]);
                        }
                    }
                }
            },
            Referenced::Reference(_) => {
                proof {
                    assert(first + listed_responses(rs@.take(i + 1)) =~= prev);
                }
            },
        }
        i = i + 1;
    }
    proof {
        assert(rs@.take(i as int) =~= rs@);
    }
    out
}

/// Copies of the tags.
fn copy_tags(tags: &Vec<String>) -> (r: Vec<String>)
    ensures
        r@ == tags@,
{
    let mut r: Vec<String> = Vec::new();
    let mut i: usize = 0;
    while i < tags.len()
        invariant
            i <= tags@.len(),
            r@ == tags@.take(i as int),
        decreases tags@.len() - i,
    {
        r.push(tags[i].clone());
        proof {
            assert(tags@.take(i + 1) =~= tags@.take(i as int).push(tags@[i as int]));
        }
        i = i + 1;
    }
    proof {
        assert(tags@.take(i as int) =~= tags@);
    }
    r
}

/// The name of a method, in capitals.
fn method_name_of(m: &Method) -> (s: String)
    ensures
        s@ == method_name(*m),
{
    match m {
        Method::Get => String::from_str("GET"),
        Method::Put => String::from_str("PUT"),
        Method::Post => String::from_str("POST"),
        Method::Delete => String::from_str("DELETE"),
        Method::Options => String::from_str("OPTIONS"),
        Method::Head => String::from_str("HEAD"),
        Method::Patch => String::from_str("PATCH"),
        Method::Trace => String::from_str("TRACE"),
    }
}

/// The endpoint of one operation.
fn endpoint_of(op: &OperationModel, schemas: &Vec<(String, SchemaRef)>, fuel: usize) -> (e: ApiEndpoint)
    ensures
        endpoint_ok(e, *op, schemas@, fuel as nat),
{
    ApiEndpoint {
        path: op.path.clone(),
        method: method_name_of(&op.method),
        operation_id: copy_opt(&op.operation_id),
        summary: copy_opt(&op.summary),
        description: copy_opt(&op.description),
        tags: copy_tags(&op.tags),
        parameters: parameters_of(&op.parameters),
        request_body: request_body_of(&op.request_body, schemas, fuel),
        responses: responses_of(op, schemas, fuel),
        deprecated: op.deprecated,
    }
}

/// `r` are the endpoints of the document `spec`: one per operation, in order, with
/// references followed at most as many deep as there are component schemas.
pub open spec fn endpoints_ok(r: Seq<ApiEndpoint>, spec: OpenApiModel) -> bool {
    &&& r.len() == spec.operations@.len()
    &&& forall|k: int|
        0 <= k < r.len() ==> endpoint_ok(#[trigger] r[k], spec.operations@[k], spec.schemas@, spec.schemas@.len())
}

/// Extract all endpoints from an OpenAPI document, one per operation and in the order
/// of the operations. The fields of a schema follow `$ref`s into the component
/// schemas, at most as many deep as there are component schemas: as deep as any
/// chain of references goes where none leads back to a schema it passed.
pub fn extract_endpoints(spec: &OpenApiModel) -> (r: Vec<ApiEndpoint>)
    ensures
        endpoints_ok(r@, *spec),
{
    let fuel = spec.schemas.len();
    let mut r: Vec<ApiEndpoint> = Vec::new();
    let mut i: usize = 0;
    while i < spec.operations.len()
        invariant
            i <= spec.operations@.len(),
            fuel == spec.schemas@.len(),
            r@.len() == i,
            forall|k: int|
                0 <= k < i ==> endpoint_ok(#[trigger] r@[k], spec.operations@[k], spec.schemas@, fuel as nat),
        decreases spec.operations@.len() - i,
    {
        r.push(endpoint_of(&spec.operations[i], &spec.schemas, fuel));
        i = i + 1;
    }
    r
}

// ---------------------------------------------------------------------------
// Parsing
// ---------------------------------------------------------------------------

#[verifier::external_type_specification]
#[verifier::external_body]
pub struct ExOpenApiDocument(openapiv3::OpenAPI);

#[verifier::external_type_specification]
#[verifier::external_body]
pub struct ExOpenApiOperation(openapiv3::Operation);

#[verifier::external_type_specification]
#[verifier::external_body]
pub struct ExOpenApiParameter(openapiv3::Parameter);

#[verifier::external_type_specification]
#[verifier::external_body]
pub struct ExOpenApiParameterData(openapiv3::ParameterData);

#[verifier::external_type_specification]
#[verifier::external_body]
pub struct ExOpenApiRequestBody(openapiv3::RequestBody);

#[verifier::external_type_specification]
#[verifier::external_body]
pub struct ExOpenApiResponse(openapiv3::Response);

#[verifier::external_type_specification]
#[verifier::external_body]
pub struct ExOpenApiMediaType(openapiv3::MediaType);

#[verifier::external_type_specification]
#[verifier::external_body]
pub struct ExOpenApiSchema(openapiv3::Schema);

#[verifier::external_type_specification]
#[verifier::external_body]
pub struct ExOpenApiType(openapiv3::Type);

#[verifier::external_type_specification]
#[verifier::external_body]
pub struct ExOpenApiObjectType(openapiv3::ObjectType);

#[verifier::external_type_specification]
#[verifier::external_body]
#[verifier::reject_recursive_types(T)]
pub struct ExOpenApiReferenceOr<T>(openapiv3::ReferenceOr<T>);

/// The document that `serde_json` parses from `content` into `openapiv3::OpenAPI`,
/// read into the model; or the parse error's message.
pub uninterp spec fn openapi_json_model_of(content: Seq<char>) -> Result<OpenApiModel, Seq<char>>;

/// The document that `serde_saphyr` parses from the YAML `content` into
/// `openapiv3::OpenAPI`, read into the model; or the parse error's message.
pub uninterp spec fn openapi_yaml_model_of(content: Seq<char>) -> Result<OpenApiModel, Seq<char>>;

/// Parses JSON with `serde_json::from_str::<openapiv3::OpenAPI>` and reads the
/// document into the model; on failure, the error's `to_string()`. The result is named
/// `openapi_json_model_of`: it depends on `content` alone.
#[verifier::external_body]
fn parse_openapi_json(content: &str) -> (r: Result<OpenApiModel, String>)
    ensures
        match r {
            Ok(m) => openapi_json_model_of(content@) == Ok::<OpenApiModel, Seq<char>>(m),
            Err(e) => openapi_json_model_of(content@) == Err::<OpenApiModel, Seq<char>>(e@),
        },
{
    match serde_json::from_str::<openapiv3::OpenAPI>(content) {
        Ok(spec) => Ok(openapi_model(&spec)),
        Err(e) => Err(e.to_string()),
    }
}

/// Parses YAML with `serde_saphyr::from_str::<openapiv3::OpenAPI>` and reads the
/// document into the model; on failure, the error's `to_string()`. The result is named
/// `openapi_yaml_model_of`: it depends on `content` alone.
#[verifier::external_body]
fn parse_openapi_yaml(content: &str) -> (r: Result<OpenApiModel, String>)
    ensures
        match r {
            Ok(m) => openapi_yaml_model_of(content@) == Ok::<OpenApiModel, Seq<char>>(m),
            Err(e) => openapi_yaml_model_of(content@) == Err::<OpenApiModel, Seq<char>>(e@),
        },
{
    match serde_saphyr::from_str::<openapiv3::OpenAPI>(content) {
        Ok(spec) => Ok(openapi_model(&spec)),
        Err(e) => Err(e.to_string()),
    }
}

/// Reads a parsed document into the model: its operations as `operations()` yields
/// them (path by path, methods in the order get, put, post, delete, options, head,
/// patch, trace; path items that are references left out), and its component schemas.
#[verifier::external_body]
fn openapi_model(spec: &openapiv3::OpenAPI) -> OpenApiModel {
    let operations = spec.operations().map(|(path, method, op)| operation_model(path, method, op)).collect();
    let schemas = match &spec.components {
        Some(c) => c.schemas.iter().map(|(name, s)| (name.clone(), schema_ref(s))).collect(),
        None => Vec::new(),
    };
    OpenApiModel { operations, schemas }
}

/// Reads one operation into the model, field by field.
#[verifier::external_body]
fn operation_model(path: &str, method: &str, op: &openapiv3::Operation) -> OperationModel {
    OperationModel {
        path: path.to_string(),
        method: method_from_name(method),
        operation_id: op.operation_id.clone(),
        summary: op.summary.clone(),
        description: op.description.clone(),
        tags: op.tags.clone(),
        parameters: op.parameters.iter().map(parameter_ref).collect(),
        request_body: op.request_body.as_ref().map(request_body_ref),
        default_response: op.responses.default.as_ref().map(response_ref),
        responses: op.responses.responses.iter().map(|(c, r)| (c.to_string(), response_ref(r))).collect(),
        deprecated: op.deprecated,
    }
}

/// Reads a parameter or a reference to one into the model.
#[verifier::external_body]
fn parameter_ref(p: &openapiv3::ReferenceOr<openapiv3::Parameter>) -> Referenced<ParameterModel> {
    match p {
        openapiv3::ReferenceOr::Reference { reference } => Referenced::Reference(reference.clone()),
        openapiv3::ReferenceOr::Item(param) => Referenced::Item(parameter_model(param)),
    }
}

/// Reads a parameter into the model: its location, then its data.
#[verifier::external_body]
fn parameter_model(p: &openapiv3::Parameter) -> ParameterModel {
    match p {
        openapiv3::Parameter::Query { parameter_data, .. } => parameter_data_model(Location::Query, parameter_data),
        openapiv3::Parameter::Path { parameter_data, .. } => parameter_data_model(Location::Path, parameter_data),
        openapiv3::Parameter::Header { parameter_data, .. } => parameter_data_model(Location::Header, parameter_data),
        openapiv3::Parameter::Cookie { parameter_data, .. } => parameter_data_model(Location::Cookie, parameter_data),
    }
}

/// Reads a parameter's data into the model.
#[verifier::external_body]
fn parameter_data_model(location: Location, d: &openapiv3::ParameterData) -> ParameterModel {
    let format = match &d.format {
        openapiv3::ParameterSchemaOrContent::Schema(s) => ParameterFormat::Schema(schema_ref(s)),
        openapiv3::ParameterSchemaOrContent::Content(_) => ParameterFormat::Content,
    };
    ParameterModel { location, name: d.name.clone(), required: d.required, description: d.description.clone(), format }
}

/// Reads a request body or a reference to one into the model.
#[verifier::external_body]
fn request_body_ref(b: &openapiv3::ReferenceOr<openapiv3::RequestBody>) -> Referenced<RequestBodyModel> {
    match b {
        openapiv3::ReferenceOr::Reference { reference } => Referenced::Reference(reference.clone()),
        openapiv3::ReferenceOr::Item(b) => Referenced::Item(RequestBodyModel {
            description: b.description.clone(),
            content: b.content.iter().map(|(ct, m)| media_model(ct, m)).collect(),
            required: b.required,
        }),
    }
}

/// Reads a response or a reference to one into the model.
#[verifier::external_body]
fn response_ref(r: &openapiv3::ReferenceOr<openapiv3::Response>) -> Referenced<ResponseModel> {
    match r {
        openapiv3::ReferenceOr::Reference { reference } => Referenced::Reference(reference.clone()),
        openapiv3::ReferenceOr::Item(r) => Referenced::Item(ResponseModel {
            description: r.description.clone(),
            content: r.content.iter().map(|(ct, m)| media_model(ct, m)).collect(),
        }),
    }
}

/// Reads one media type into the model.
#[verifier::external_body]
fn media_model(content_type: &str, m: &openapiv3::MediaType) -> MediaModel {
    MediaModel { content_type: content_type.to_string(), schema: m.schema.as_ref().map(schema_ref) }
}

/// Reads a schema or a reference to one into the model.
#[verifier::external_body]
fn schema_ref(s: &openapiv3::ReferenceOr<openapiv3::Schema>) -> SchemaRef {
    match s {
        openapiv3::ReferenceOr::Reference { reference } => SchemaRef::Reference(reference.clone()),
        openapiv3::ReferenceOr::Item(schema) => SchemaRef::Item(Box::new(schema_model(schema))),
    }
}

/// Reads a boxed schema or a reference to one into the model.
#[verifier::external_body]
fn boxed_schema_ref(s: &openapiv3::ReferenceOr<Box<openapiv3::Schema>>) -> SchemaRef {
    match s {
        openapiv3::ReferenceOr::Reference { reference } => SchemaRef::Reference(reference.clone()),
        openapiv3::ReferenceOr::Item(schema) => SchemaRef::Item(Box::new(schema_model(schema))),
    }
}

/// Reads a schema into the model: its type, else `Other`, and its description.
#[verifier::external_body]
fn schema_model(s: &openapiv3::Schema) -> SchemaModel {
    let kind = match &s.schema_kind {
        openapiv3::SchemaKind::Type(t) => type_model(t),
        _ => SchemaKind::Other,
    };
    SchemaModel { kind, description: s.schema_data.description.clone() }
}

/// Reads a schema type into the model.
#[verifier::external_body]
fn type_model(t: &openapiv3::Type) -> SchemaKind {
    match t {
        openapiv3::Type::String(_) => SchemaKind::String,
        openapiv3::Type::Number(_) => SchemaKind::Number,
        openapiv3::Type::Integer(_) => SchemaKind::Integer,
        openapiv3::Type::Boolean(_) => SchemaKind::Boolean,
        openapiv3::Type::Array(a) => SchemaKind::Array { items: a.items.as_ref().map(boxed_schema_ref) },
        openapiv3::Type::Object(o) => object_model(o),
    }
}

/// Reads an object schema into the model: its properties in order, and the required
/// names.
#[verifier::external_body]
fn object_model(o: &openapiv3::ObjectType) -> SchemaKind {
    SchemaKind::Object {
        properties: o.properties.iter().map(|(name, p)| (name.clone(), boxed_schema_ref(p))).collect(),
        required: o.required.clone(),
    }
}

/// The method an operation is listed under: `get`, `put`, `post`, `delete`,
/// `options`, `head` or `patch`; `trace` for any other name.
pub open spec fn method_of_name(name: Seq<char>) -> Method {
    if name == "get"@ {
        Method::Get
    } else if name == "put"@ {
        Method::Put
    } else if name == "post"@ {
        Method::Post
    } else if name == "delete"@ {
        Method::Delete
    } else if name == "options"@ {
        Method::Options
    } else if name == "head"@ {
        Method::Head
    } else if name == "patch"@ {
        Method::Patch
    } else {
        Method::Trace
    }
}

/// The method an operation is listed under, by its name.
pub fn method_from_name(name: &str) -> (m: Method)
    ensures
        m == method_of_name(name@),
{
    if str_eq(name, "get") {
        Method::Get
    } else if str_eq(name, "put") {
        Method::Put
    } else if str_eq(name, "post") {
        Method::Post
    } else if str_eq(name, "delete") {
        Method::Delete
    } else if str_eq(name, "options") {
        Method::Options
    } else if str_eq(name, "head") {
        Method::Head
    } else if str_eq(name, "patch") {
        Method::Patch
    } else {
        Method::Trace
    }
}

/// The document read from `content`: JSON or YAML as `json` says.
pub open spec fn openapi_model_of(content: Seq<char>, json: bool) -> Result<OpenApiModel, Seq<char>> {
    if json {
        openapi_json_model_of(content)
    } else {
        openapi_yaml_model_of(content)
    }
}

/// The start of the message for a document that does not parse.
pub open spec fn invalid_document_prefix(json: bool) -> Seq<char> {
    if json {
        "Invalid OpenAPI JSON: "@
    } else {
        "Invalid OpenAPI YAML: "@
    }
}

/// Whether `r` is the error for the file `path` whose parse failed with `e`.
pub open spec fn is_parse_error(r: OxidocError, path: Seq<char>, json: bool, e: Seq<char>) -> bool {
    r matches OxidocError::RdxParse { path: p, message } && p@ == path && message@ == invalid_document_prefix(json) + e
}

/// Parse an OpenAPI document read from the file `path`: JSON when `json`, else YAML.
/// A document that does not parse gives a parse error naming the file.
pub fn openapi_from_content(path: &str, content: &str, json: bool) -> (r: Result<OpenApiModel, OxidocError>)
    ensures
        match openapi_model_of(content@, json) {
            Ok(m) => r == Ok::<OpenApiModel, OxidocError>(m),
            Err(e) => r is Err && is_parse_error(r->Err_0, path@, json, e),
        },
{
    let parsed = if json {
        parse_openapi_json(content)
    } else {
        parse_openapi_yaml(content)
    };
    match parsed {
        Ok(m) => Ok(m),
        Err(e) => {
            let mut message = if json {
                String::from_str("Invalid OpenAPI JSON: ")
            } else {
                String::from_str("Invalid OpenAPI YAML: ")
            };
            message.append(e.as_str());
            Err(OxidocError::RdxParse { path: String::from_str(path), message })
        },
    }
}

/// The endpoints of an OpenAPI document read from the file `path`: JSON when `json`,
/// else YAML.
pub fn endpoints_from_content(path: &str, content: &str, json: bool) -> (r: Result<Vec<ApiEndpoint>, OxidocError>)
    ensures
        match openapi_model_of(content@, json) {
            Ok(m) => r matches Ok(v) && endpoints_ok(v@, m),
            Err(e) => r is Err && is_parse_error(r->Err_0, path@, json, e),
        },
{
    match openapi_from_content(path, content, json) {
        Ok(m) => Ok(extract_endpoints(&m)),
        Err(e) => Err(e),
    }
}

} // verus!
