use oxidoc::openapi::extract::{
    endpoints_from_content, extract_endpoints, openapi_from_content, Location, MediaModel, Method, OpenApiModel, OperationModel, ParameterFormat,
    ParameterModel, Referenced, RequestBodyModel, ResponseModel, SchemaKind, SchemaModel, SchemaRef,
};

fn op(path: &str, method: Method, id: &str) -> OperationModel {
    OperationModel {
        path: path.into(),
        method,
        operation_id: Some(id.into()),
        summary: None,
        description: None,
        tags: vec![],
        parameters: vec![],
        request_body: None,
        default_response: None,
        responses: vec![],
        deprecated: false,
    }
}

fn response(description: &str) -> Referenced<ResponseModel> {
    Referenced::Item(ResponseModel { description: description.into(), content: vec![] })
}

fn schema(kind: SchemaKind) -> SchemaRef {
    SchemaRef::Item(Box::new(SchemaModel { kind, description: None }))
}

fn query_param(name: &str, required: bool, kind: SchemaKind) -> Referenced<ParameterModel> {
    Referenced::Item(ParameterModel {
        location: Location::Query,
        name: name.into(),
        required,
        description: None,
        format: ParameterFormat::Schema(schema(kind)),
    })
}

fn pet_schema() -> SchemaRef {
    schema(SchemaKind::Object {
        properties: vec![
            ("id".into(), schema(SchemaKind::Integer)),
            ("name".into(), schema(SchemaKind::String)),
        ],
        required: vec!["id".into(), "name".into()],
    })
}

fn sample_spec() -> OpenApiModel {
    let mut list = op("/pets", Method::Get, "listPets");
    list.summary = Some("List all pets".into());
    list.tags = vec!["pets".into()];
    list.parameters = vec![query_param("limit", false, SchemaKind::Integer)];
    list.responses = vec![("200".into(), response("A list of pets"))];
    let mut create = op("/pets", Method::Post, "createPet");
    create.tags = vec!["pets".into()];
    create.request_body = Some(Referenced::Item(RequestBodyModel {
        description: None,
        content: vec![MediaModel {
            content_type: "application/json".into(),
            schema: Some(SchemaRef::Reference("#/components/schemas/Pet".into())),
        }],
        required: true,
    }));
    create.responses = vec![("201".into(), response("Created"))];
    let mut show = op("/pets/{petId}", Method::Get, "showPetById");
    show.parameters = vec![Referenced::Item(ParameterModel {
        location: Location::Path,
        name: "petId".into(),
        required: true,
        description: None,
        format: ParameterFormat::Schema(schema(SchemaKind::String)),
    })];
    show.responses = vec![("200".into(), response("A pet"))];
    OpenApiModel { operations: vec![list, create, show], schemas: vec![("Pet".into(), pet_schema())] }
}

#[test]
fn extract_endpoints_from_spec() {
    let spec = sample_spec();
    let endpoints = extract_endpoints(&spec);
    assert_eq!(endpoints.len(), 3);

    let get_pets = endpoints
        .iter()
        .find(|e| e.operation_id.as_deref() == Some("listPets"))
        .unwrap();
    assert_eq!(get_pets.method, "GET");
    assert_eq!(get_pets.path, "/pets");
    assert_eq!(get_pets.parameters.len(), 1);
    assert_eq!(get_pets.parameters[0].name, "limit");
    assert_eq!(get_pets.parameters[0].location, "query");
    assert!(!get_pets.parameters[0].required);

    let create_pet = endpoints
        .iter()
        .find(|e| e.operation_id.as_deref() == Some("createPet"))
        .unwrap();
    assert_eq!(create_pet.method, "POST");
    assert!(create_pet.request_body.is_some());
    assert!(create_pet.request_body.as_ref().unwrap().required);
}






#[test]
fn referenced_body_schema_is_resolved() {
    let endpoints = extract_endpoints(&sample_spec());
    let body = endpoints[1].request_body.as_ref().unwrap();
    assert_eq!(body.content_type, "application/json");
    assert_eq!(body.schema_type, "Pet");
    let names: Vec<_> = body.fields.iter().map(|f| (f.name.as_str(), f.field_type.as_str(), f.required)).collect();
    assert_eq!(names, vec![("id", "integer", true), ("name", "string", true)]);
    assert_eq!(endpoints[2].parameters[0].location, "path");
    assert!(endpoints[2].parameters[0].required);
}

#[test]
fn array_schema_type_and_nested_fields() {
    let mut list = op("/pets", Method::Get, "listPets");
    list.default_response = Some(response("Unexpected error"));
    list.responses = vec![(
        "200".into(),
        Referenced::Item(ResponseModel {
            description: "Pets".into(),
            content: vec![MediaModel {
                content_type: "application/json".into(),
                schema: Some(schema(SchemaKind::Array {
                    items: Some(SchemaRef::Reference("#/components/schemas/Pet".into())),
                })),
            }],
        }),
    )];
    let spec = OpenApiModel { operations: vec![list], schemas: vec![("Pet".into(), pet_schema())] };
    let endpoints = extract_endpoints(&spec);
    let responses = &endpoints[0].responses;
    assert_eq!(responses.len(), 2);
    assert_eq!(responses[0].status, "default");
    assert_eq!(responses[0].schema_type, None);
    assert_eq!(responses[1].schema_type.as_deref(), Some("array<Pet>"));
    assert_eq!(responses[1].fields.len(), 2);
}

#[test]
fn self_referencing_schema_stops_after_the_components() {
    let node = schema(SchemaKind::Object {
        properties: vec![("next".into(), SchemaRef::Reference("#/components/schemas/Node".into()))],
        required: vec![],
    });
    let mut get = op("/nodes", Method::Get, "getNode");
    get.request_body = Some(Referenced::Item(RequestBodyModel {
        description: None,
        content: vec![MediaModel {
            content_type: "application/json".into(),
            schema: Some(SchemaRef::Reference("#/components/schemas/Node".into())),
        }],
        required: false,
    }));
    let spec = OpenApiModel { operations: vec![get], schemas: vec![("Node".into(), node)] };
    let endpoints = extract_endpoints(&spec);
    let body = endpoints[0].request_body.as_ref().unwrap();
    assert_eq!(body.fields.len(), 1);
    assert_eq!(body.fields[0].field_type, "Node");
    assert!(body.fields[0].children.is_empty());
}

fn from_yaml(yaml: &str) -> Vec<oxidoc::openapi::ApiEndpoint> {
    endpoints_from_content("openapi.yaml", yaml, false).unwrap()
}

#[test]
fn parse_empty_spec() {
    let yaml = r#"
openapi: "3.0.0"
info:
  title: Empty API
  version: "1.0.0"
paths: {}
"#;
    let endpoints = from_yaml(yaml);
    assert_eq!(endpoints.len(), 0);
}

#[test]
fn parse_spec_with_references() {
    let yaml = r##"
openapi: "3.0.0"
info:
  title: API with Refs
  version: "1.0.0"
paths:
  /users:
    get:
      operationId: listUsers
      parameters:
        - $ref: "#/components/parameters/PageParam"
        - name: limit
          in: query
          required: false
          schema:
            type: integer
      responses:
        '200':
          description: Users
"##;
    let endpoints = from_yaml(yaml);
    assert_eq!(endpoints.len(), 1);
    let endpoint = &endpoints[0];
    // $ref parameters should be filtered out
    assert_eq!(endpoint.parameters.len(), 1);
    assert_eq!(endpoint.parameters[0].name, "limit");
}

#[test]
fn deprecated_endpoint_flag() {
    let yaml = r#"
openapi: "3.0.0"
info:
  title: API with Deprecated
  version: "1.0.0"
paths:
  /old-endpoint:
    get:
      operationId: oldOp
      deprecated: true
      responses:
        '200':
          description: Response
"#;
    let endpoints = from_yaml(yaml);
    assert_eq!(endpoints.len(), 1);
    assert!(endpoints[0].deprecated);
}

#[test]
fn endpoint_without_tags() {
    let yaml = r#"
openapi: "3.0.0"
info:
  title: API
  version: "1.0.0"
paths:
  /items:
    get:
      operationId: getItems
      responses:
        '200':
          description: Items
"#;
    let endpoints = from_yaml(yaml);
    assert_eq!(endpoints.len(), 1);
    assert!(endpoints[0].tags.is_empty());
}

#[test]
fn multiple_response_codes() {
    let yaml = r#"
openapi: "3.0.0"
info:
  title: API
  version: "1.0.0"
paths:
  /resource:
    post:
      operationId: createResource
      responses:
        '201':
          description: Created
        '400':
          description: Bad request
        '500':
          description: Server error
"#;
    let endpoints = from_yaml(yaml);
    assert_eq!(endpoints.len(), 1);
    assert_eq!(endpoints[0].responses.len(), 3);
    let statuses: Vec<_> = endpoints[0].responses.iter().map(|r| r.status.as_str()).collect();
    assert!(statuses.contains(&"201"));
    assert!(statuses.contains(&"400"));
    assert!(statuses.contains(&"500"));
}

#[test]
fn json_document_with_component_schema() {
    let json = r##"{
  "openapi": "3.0.0",
  "info": {"title": "Pets", "version": "1"},
  "paths": {
    "/pets": {
      "post": {
        "operationId": "createPet",
        "requestBody": {
          "required": true,
          "content": {"application/json": {"schema": {"$ref": "#/components/schemas/Pet"}}}
        },
        "responses": {"201": {"description": "Created"}, "4XX": {"description": "Bad"}}
      },
      "get": {"operationId": "listPets", "responses": {"200": {"description": "Pets"}}}
    }
  },
  "components": {"schemas": {"Pet": {"type": "object", "required": ["name"],
    "properties": {"name": {"type": "string", "description": "Pet name"}, "tags": {"type": "array", "items": {"type": "string"}}}}}}
}"##;
    let endpoints = endpoints_from_content("openapi.json", json, true).unwrap();
    assert_eq!(endpoints.len(), 2);
    assert_eq!(endpoints[0].method, "GET");
    assert_eq!(endpoints[1].method, "POST");
    let body = endpoints[1].request_body.as_ref().unwrap();
    assert_eq!(body.schema_type, "Pet");
    assert_eq!(body.fields.len(), 2);
    assert_eq!(body.fields[0].name, "name");
    assert!(body.fields[0].required);
    assert_eq!(body.fields[0].description.as_deref(), Some("Pet name"));
    assert_eq!(body.fields[1].field_type, "array");
    let statuses: Vec<_> = endpoints[1].responses.iter().map(|r| r.status.as_str()).collect();
    assert_eq!(statuses, vec!["201", "4XX"]);
}

#[test]
fn invalid_document_is_a_parse_error() {
    match openapi_from_content("api.json", "{ not json", true) {
        Err(oxidoc::error::OxidocError::RdxParse { path, message }) => {
            assert_eq!(path, "api.json");
            assert!(message.starts_with("Invalid OpenAPI JSON: "));
        }
        _ => panic!("expected a parse error"),
    }
    match openapi_from_content("api.yaml", "openapi: [", false) {
        Err(oxidoc::error::OxidocError::RdxParse { message, .. }) => {
            assert!(message.starts_with("Invalid OpenAPI YAML: "))
        }
        _ => panic!("expected a parse error"),
    }
}
