use mveng::service::{
    BindAddress, Endpoint, Method, Operation, Record, RequestBody, Route, Schema, Service,
};

fn route(method: Method, path: &str, endpoint: Endpoint) -> Route {
    Route { method, path: path.to_string(), endpoint }
}

fn schema(name: &str, fields: &[&str]) -> Schema {
    Schema { name: name.to_string(), fields: fields.iter().map(|f| f.to_string()).collect() }
}

#[test]
fn upload_service_binds_loopback() {
    assert_eq!(
        Service::Upload.bind_address(),
        BindAddress { host: (127, 0, 0, 1), port: 3000 }
    );
}

#[test]
fn greeting_service_binds_all_interfaces() {
    assert_eq!(
        Service::Greeting.bind_address(),
        BindAddress { host: (0, 0, 0, 0), port: 3000 }
    );
}

#[test]
fn documentation_paths() {
    assert_eq!(Service::Upload.docs_page(), "/docs");
    assert_eq!(Service::Upload.docs_document(), "/api-doc/openapi.json");
    assert_eq!(Service::Greeting.docs_page(), "/swagger-ui");
    assert_eq!(Service::Greeting.docs_document(), "/api-docs/openapi.json");
}

#[test]
fn upload_service_routes() {
    assert_eq!(
        Service::Upload.routes(),
        vec![route(Method::Post, "/upload", Endpoint::UploadAudio)]
    );
}

#[test]
fn greeting_service_routes() {
    assert_eq!(
        Service::Greeting.routes(),
        vec![
            route(Method::Get, "/hello", Endpoint::Hello),
            route(Method::Get, "/mveng", Endpoint::Mveng),
        ]
    );
}

#[test]
fn documentation_lists_the_declared_routes() {
    for service in [Service::Upload, Service::Greeting] {
        let declared: Vec<(Method, String)> =
            service.routes().into_iter().map(|r| (r.method, r.path)).collect();
        let listed: Vec<(Method, String)> =
            service.describe().operations.into_iter().map(|o| (o.method, o.path)).collect();
        assert_eq!(listed, declared);
    }
}

#[test]
fn upload_documentation() {
    let description = Service::Upload.describe();
    assert_eq!(
        description.operations,
        vec![Operation {
            method: Method::Post,
            path: "/upload".to_string(),
            name: "upload_audio".to_string(),
            request: Some(RequestBody {
                content_type: "multipart/form-data".to_string(),
                description: "Upload an audio file".to_string(),
            }),
            response_description: "File uploaded successfully".to_string(),
            response: Record::UploadResponse,
        }]
    );
    assert_eq!(
        description.schemas,
        vec![schema("AudioUpload", &["file"]), schema("UploadResponse", &["saved"])]
    );
}

#[test]
fn greeting_documentation() {
    let description = Service::Greeting.describe();
    assert_eq!(description.operations.len(), 2);
    assert_eq!(description.operations[0].name, "hello");
    assert_eq!(description.operations[0].request, None);
    assert_eq!(description.operations[0].response, Record::HelloResponse);
    assert_eq!(description.operations[1].name, "mveng");
    assert_eq!(description.operations[1].request, None);
    assert_eq!(description.operations[1].response, Record::MvengResponse);
    assert_eq!(
        description.schemas,
        vec![
            schema("HelloResponse", &["message", "status"]),
            schema("MvengResponse", &["greeting", "wisdom", "from"]),
        ]
    );
}

#[test]
fn route_operation_keeps_method_and_path() {
    let operation = route(Method::Get, "/hello", Endpoint::Hello).operation();
    assert_eq!(operation.method, Method::Get);
    assert_eq!(operation.path, "/hello");
    assert_eq!(operation.response_description, "Fixed hello message");
    let other = route(Method::Get, "/mveng", Endpoint::Mveng).operation();
    assert_eq!(other.response_description, "Fixed storyteller greeting");
}

#[test]
fn records_of_each_service() {
    assert_eq!(Service::Upload.records(), vec![Record::AudioUpload, Record::UploadResponse]);
    assert_eq!(Service::Greeting.records(), vec![Record::HelloResponse, Record::MvengResponse]);
    assert_eq!(Record::UploadResponse.schema(), schema("UploadResponse", &["saved"]));
}

#[test]
fn no_route_takes_a_documentation_path() {
    for service in [Service::Upload, Service::Greeting] {
        let routes = service.routes();
        for (i, r) in routes.iter().enumerate() {
            assert_ne!(r.path, service.docs_page());
            assert_ne!(r.path, service.docs_document());
            for other in &routes[i + 1..] {
                assert!(r.method != other.method || r.path != other.path);
            }
        }
    }
}
