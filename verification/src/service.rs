//! The two services as data: where each listens, which routes it declares,
//! where its documentation is served, and what that documentation lists.

use vstd::prelude::*;

verus! {

/// One of the two services. They share nothing and never run together.
#[derive(Debug, Clone, Copy, PartialEq, Eq, Structural)]
pub enum Service {
    /// Takes a multipart form and stores the file in it.
    Upload,
    /// Answers with fixed greetings.
    Greeting,
}

/// The request methods that the services' routes use.
#[derive(Debug, Clone, Copy, PartialEq, Eq, Structural)]
pub enum Method {
    Get,
    Post,
}

/// What stands behind a route.
#[derive(Debug, Clone, Copy, PartialEq, Eq, Structural)]
pub enum Endpoint {
    UploadAudio,
    Hello,
    Mveng,
}

/// The records that the documentation gives a schema for.
#[derive(Debug, Clone, Copy, PartialEq, Eq, Structural)]
pub enum Record {
    AudioUpload,
    UploadResponse,
    HelloResponse,
    MvengResponse,
}

/// The address that a service binds: four octets and a port.
#[derive(Debug, Clone, Copy, PartialEq, Eq)]
pub struct BindAddress {
    pub host: (u8, u8, u8, u8),
    pub port: u16,
}

/// A declared route: requests with `method` for `path` go to `endpoint`.
#[derive(Debug, Clone, PartialEq, Eq)]
pub struct Route {
    pub method: Method,
    pub path: String,
    pub endpoint: Endpoint,
}

/// The body that an operation expects, as the documentation describes it.
#[derive(Debug, Clone, PartialEq, Eq)]
pub struct RequestBody {
    pub content_type: String,
    pub description: String,
}

/// One operation of the documentation: a route, the name of what serves
/// it, the body it expects, and the record it answers with, always under
/// status 200.
#[derive(Debug, Clone, PartialEq, Eq)]
pub struct Operation {
    pub method: Method,
    pub path: String,
    pub name: String,
    pub request: Option<RequestBody>,
    pub response_description: String,
    pub response: Record,
}

/// The schema of one record: its name and the names of its fields, each of
/// which holds a text.
#[derive(Debug, Clone, PartialEq, Eq)]
pub struct Schema {
    pub name: String,
    pub fields: Vec<String>,
}

/// What a service's documentation describes.
#[derive(Debug, Clone, PartialEq, Eq)]
pub struct ApiDescription {
    pub operations: Vec<Operation>,
    pub schemas: Vec<Schema>,
}

/// Mathematical value of a [`Route`].
pub struct RouteView {
    pub method: Method,
    pub path: Seq<char>,
    pub endpoint: Endpoint,
}

/// Mathematical value of a [`RequestBody`].
pub struct RequestBodyView {
    pub content_type: Seq<char>,
    pub description: Seq<char>,
}

/// Mathematical value of an [`Operation`].
pub struct OperationView {
    pub method: Method,
    pub path: Seq<char>,
    pub name: Seq<char>,
    pub request: Option<RequestBodyView>,
    pub response_description: Seq<char>,
    pub response: Record,
}

/// Mathematical value of a [`Schema`].
pub struct SchemaView {
    pub name: Seq<char>,
    pub fields: Seq<Seq<char>>,
}

/// Mathematical value of an [`ApiDescription`].
pub struct ApiDescriptionView {
    pub operations: Seq<OperationView>,
    pub schemas: Seq<SchemaView>,
}

impl View for Route {
    type V = RouteView;

    open spec fn view(&self) -> RouteView {
        RouteView { method: self.method, path: self.path@, endpoint: self.endpoint }
    }
}

impl View for RequestBody {
    type V = RequestBodyView;

    open spec fn view(&self) -> RequestBodyView {
        RequestBodyView { content_type: self.content_type@, description: self.description@ }
    }
}

impl View for Operation {
    type V = OperationView;

    open spec fn view(&self) -> OperationView {
        OperationView {
            method: self.method,
            path: self.path@,
            name: self.name@,
            request: match self.request {
                Some(body) => Some(body@),
                None => None,
            },
            response_description: self.response_description@,
            response: self.response,
        }
    }
}

impl View for Schema {
    type V = SchemaView;

    open spec fn view(&self) -> SchemaView {
        SchemaView {
            name: self.name@,
            fields: Seq::new(self.fields@.len(), |i: int| self.fields@[i]@),
        }
    }
}

impl View for ApiDescription {
    type V = ApiDescriptionView;

    open spec fn view(&self) -> ApiDescriptionView {
        ApiDescriptionView {
            operations: Seq::new(self.operations@.len(), |i: int| self.operations@[i]@),
            schemas: Seq::new(self.schemas@.len(), |i: int| self.schemas@[i]@),
        }
    }
}

/// The values of a list of routes, in order.
pub open spec fn route_views(routes: Seq<Route>) -> Seq<RouteView> {
    Seq::new(routes.len(), |i: int| routes[i]@)
}

/// The address that `service` listens on: the upload service on the
/// loopback interface, the greeting service on all interfaces, both on
/// port 3000.
pub open spec fn bind_address_of(service: Service) -> BindAddress {
    match service {
        Service::Upload => BindAddress { host: (127u8, 0u8, 0u8, 1u8), port: 3000u16 },
        Service::Greeting => BindAddress { host: (0u8, 0u8, 0u8, 0u8), port: 3000u16 },
    }
}

/// The path under which `service` shows its documentation to a reader.
pub open spec fn docs_page_of(service: Service) -> Seq<char> {
    match service {
        Service::Upload => "/docs"@,
        Service::Greeting => "/swagger-ui"@,
    }
}

/// The path under which `service` serves its documentation as a document.
pub open spec fn docs_document_of(service: Service) -> Seq<char> {
    match service {
        Service::Upload => "/api-doc/openapi.json"@,
        Service::Greeting => "/api-docs/openapi.json"@,
    }
}

/// The routes that `service` declares, in the order of their declaration.
pub open spec fn routes_of(service: Service) -> Seq<RouteView> {
    match service {
        Service::Upload => seq![
            RouteView { method: Method::Post, path: "/upload"@, endpoint: Endpoint::UploadAudio },
        ],
        Service::Greeting => seq![
            RouteView { method: Method::Get, path: "/hello"@, endpoint: Endpoint::Hello },
            RouteView { method: Method::Get, path: "/mveng"@, endpoint: Endpoint::Mveng },
        ],
    }
}

/// The name under which the documentation lists `endpoint`.
pub open spec fn name_of(endpoint: Endpoint) -> Seq<char> {
    match endpoint {
        Endpoint::UploadAudio => "upload_audio"@,
        Endpoint::Hello => "hello"@,
        Endpoint::Mveng => "mveng"@,
    }
}

/// The body that `endpoint` expects: a multipart form for the upload,
/// nothing for the greetings.
pub open spec fn request_of(endpoint: Endpoint) -> Option<RequestBodyView> {
    match endpoint {
        Endpoint::UploadAudio => Some(
            RequestBodyView {
                content_type: "multipart/form-data"@,
                description: "Upload an audio file"@,
            },
        ),
        _ => None,
    }
}

/// How the documentation describes the answer of `endpoint`.
pub open spec fn response_description_of(endpoint: Endpoint) -> Seq<char> {
    match endpoint {
        Endpoint::UploadAudio => "File uploaded successfully"@,
        Endpoint::Hello => "Fixed hello message"@,
        Endpoint::Mveng => "Fixed storyteller greeting"@,
    }
}

/// The record that `endpoint` answers with.
pub open spec fn response_of(endpoint: Endpoint) -> Record {
    match endpoint {
        Endpoint::UploadAudio => Record::UploadResponse,
        Endpoint::Hello => Record::HelloResponse,
        Endpoint::Mveng => Record::MvengResponse,
    }
}

/// The operation that documents `route`: the route's own method and path,
/// and what is known of its endpoint.
pub open spec fn operation_of(route: RouteView) -> OperationView {
    OperationView {
        method: route.method,
        path: route.path,
        name: name_of(route.endpoint),
        request: request_of(route.endpoint),
        response_description: response_description_of(route.endpoint),
        response: response_of(route.endpoint),
    }
}

/// The schema of `record`.
pub open spec fn schema_of(record: Record) -> SchemaView {
    match record {
        Record::AudioUpload => SchemaView { name: "AudioUpload"@, fields: seq!["file"@] },
        Record::UploadResponse => SchemaView { name: "UploadResponse"@, fields: seq!["saved"@] },
        Record::HelloResponse => SchemaView {
            name: "HelloResponse"@,
            fields: seq!["message"@, "status"@],
        },
        Record::MvengResponse => SchemaView {
            name: "MvengResponse"@,
            fields: seq!["greeting"@, "wisdom"@, "from"@],
        },
    }
}

/// The records that the documentation of `service` gives a schema for.
pub open spec fn records_of(service: Service) -> Seq<Record> {
    match service {
        Service::Upload => seq![Record::AudioUpload, Record::UploadResponse],
        Service::Greeting => seq![Record::HelloResponse, Record::MvengResponse],
    }
}

/// What the documentation of `service` describes: one operation for each
/// declared route, in order, and one schema for each of its records.
pub open spec fn description_of(service: Service) -> ApiDescriptionView {
    ApiDescriptionView {
        operations: Seq::new(
            routes_of(service).len(),
            |i: int| operation_of(routes_of(service)[i]),
        ),
        schemas: Seq::new(
            records_of(service).len(),
            |i: int| schema_of(records_of(service)[i]),
        ),
    }
}

/// The method and path of each operation, in order.
pub open spec fn listed_routes(description: ApiDescriptionView) -> Seq<(Method, Seq<char>)> {
    Seq::new(
        description.operations.len(),
        |i: int| (description.operations[i].method, description.operations[i].path),
    )
}

/// The method and path of each route, in order.
pub open spec fn declared_routes(service: Service) -> Seq<(Method, Seq<char>)> {
    Seq::new(
        routes_of(service).len(),
        |i: int| (routes_of(service)[i].method, routes_of(service)[i].path),
    )
}

/// The documentation of a service lists the routes that the service
/// declares, each once and in order, and no other.
pub proof fn lemma_documentation_lists_declared_routes(service: Service)
    ensures
        listed_routes(description_of(service)) == declared_routes(service),
{
    assert(listed_routes(description_of(service)) =~= declared_routes(service));
}

/// No service declares a route twice, and none of its routes takes a path
/// that its documentation is served under.
pub proof fn lemma_routes_are_distinct(service: Service)
    ensures
        declared_routes(service).no_duplicates(),
        forall|i: int|
            0 <= i < routes_of(service).len() ==> {
                &&& (#[trigger] routes_of(service)[i]).path != docs_page_of(service)
                &&& routes_of(service)[i].path != docs_document_of(service)
            },
{
    reveal_strlit("/upload");
    reveal_strlit("/hello");
    reveal_strlit("/mveng");
    reveal_strlit("/docs");
    reveal_strlit("/swagger-ui");
    reveal_strlit("/api-doc/openapi.json");
    reveal_strlit("/api-docs/openapi.json");
    assert("/hello"@[1] != "/mveng"@[1]);
    assert("/upload"@.len() != "/docs"@.len());
    assert("/hello"@.len() != "/swagger-ui"@.len());
    assert("/mveng"@.len() != "/swagger-ui"@.len());
}

impl Route {
    fn new(method: Method, path: &str, endpoint: Endpoint) -> (route: Route)
        ensures
            route@ == (RouteView { method, path: path@, endpoint }),
    {
        Route { method, path: path.to_owned(), endpoint }
    }

    /// Builds the operation that documents this route.
    pub fn operation(&self) -> (operation: Operation)
        ensures
            operation@ == operation_of(self@),
    {
        let (name, request, response_description, response) = match self.endpoint {
            Endpoint::UploadAudio => (
                "upload_audio".to_owned(),
                Some(
                    RequestBody {
                        content_type: "multipart/form-data".to_owned(),
                        description: "Upload an audio file".to_owned(),
                    },
                ),
                "File uploaded successfully".to_owned(),
                Record::UploadResponse,
            ),
            Endpoint::Hello => (
                "hello".to_owned(),
                None,
                "Fixed hello message".to_owned(),
                Record::HelloResponse,
            ),
            Endpoint::Mveng => (
                "mveng".to_owned(),
                None,
                "Fixed storyteller greeting".to_owned(),
                Record::MvengResponse,
            ),
        };
        Operation {
            method: self.method,
            path: self.path.clone(),
            name,
            request,
            response_description,
            response,
        }
    }
}

impl Record {
    /// Builds the schema of this record.
    pub fn schema(self) -> (schema: Schema)
        ensures
            schema@ == schema_of(self),
    {
        let mut fields: Vec<String> = Vec::new();
        let name = match self {
            Record::AudioUpload => {
                fields.push("file".to_owned());
                "AudioUpload".to_owned()
            },
            Record::UploadResponse => {
                fields.push("saved".to_owned());
                "UploadResponse".to_owned()
            },
            Record::HelloResponse => {
                fields.push("message".to_owned());
                fields.push("status".to_owned());
                "HelloResponse".to_owned()
            },
            Record::MvengResponse => {
                fields.push("greeting".to_owned());
                fields.push("wisdom".to_owned());
                fields.push("from".to_owned());
                "MvengResponse".to_owned()
            },
        };
        let schema = Schema { name, fields };
        assert(schema@.fields =~= schema_of(self).fields);
        schema
    }
}

impl Service {
    /// The address to bind.
    pub fn bind_address(self) -> (address: BindAddress)
        ensures
            address == bind_address_of(self),
    {
        match self {
            Service::Upload => BindAddress { host: (127, 0, 0, 1), port: 3000 },
            Service::Greeting => BindAddress { host: (0, 0, 0, 0), port: 3000 },
        }
    }

    /// The path of the documentation page.
    pub fn docs_page(self) -> (path: String)
        ensures
            path@ == docs_page_of(self),
    {
        match self {
            Service::Upload => "/docs".to_owned(),
            Service::Greeting => "/swagger-ui".to_owned(),
        }
    }

    /// The path of the documentation document.
    pub fn docs_document(self) -> (path: String)
        ensures
            path@ == docs_document_of(self),
    {
        match self {
            Service::Upload => "/api-doc/openapi.json".to_owned(),
            Service::Greeting => "/api-docs/openapi.json".to_owned(),
        }
    }

    /// The declared routes, in order.
    pub fn routes(self) -> (routes: Vec<Route>)
        ensures
            route_views(routes@) == routes_of(self),
    {
        let mut routes: Vec<Route> = Vec::new();
        match self {
            Service::Upload => {
                routes.push(Route::new(Method::Post, "/upload", Endpoint::UploadAudio));
            },
            Service::Greeting => {
                routes.push(Route::new(Method::Get, "/hello", Endpoint::Hello));
                routes.push(Route::new(Method::Get, "/mveng", Endpoint::Mveng));
            },
        }
        assert(route_views(routes@) =~= routes_of(self));
        routes
    }

    /// The records to give a schema for, in order.
    pub fn records(self) -> (records: Vec<Record>)
        ensures
            records@ == records_of(self),
    {
        let mut records: Vec<Record> = Vec::new();
        match self {
            Service::Upload => {
                records.push(Record::AudioUpload);
                records.push(Record::UploadResponse);
            },
            Service::Greeting => {
                records.push(Record::HelloResponse);
                records.push(Record::MvengResponse);
            },
        }
        assert(records@ =~= records_of(self));
        records
    }

    /// Builds what the documentation describes: it walks the declared
    /// routes and the records, and documents each.
    pub fn describe(self) -> (description: ApiDescription)
        ensures
            description@ == description_of(self),
    {
        let routes = self.routes();
        let records = self.records();
        let mut operations: Vec<Operation> = Vec::new();
        let mut i: usize = 0;
        while i < routes.len()
            invariant
                i <= routes.len(),
                operations@.len() == i,
                forall|k: int| 0 <= k < i ==> (#[trigger] operations@[k])@ == operation_of(routes@[k]@),
            decreases routes.len() - i,
        {
            operations.push(routes[i].operation());
            i += 1;
        }
        let mut schemas: Vec<Schema> = Vec::new();
        let mut j: usize = 0;
        while j < records.len()
            invariant
                j <= records.len(),
                schemas@.len() == j,
                forall|k: int| 0 <= k < j ==> (#[trigger] schemas@[k])@ == schema_of(records@[k]),
            decreases records.len() - j,
        {
            schemas.push(records[j].schema());
            j += 1;
        }
        let description = ApiDescription { operations, schemas };
        proof {
            assert(route_views(routes@).len() == routes@.len());
            assert forall|k: int| 0 <= k < routes@.len() implies routes@[k]@ == routes_of(
                self,
            )[k] by {
                assert(route_views(routes@)[k] == routes@[k]@);
            }
            assert(description@.operations =~= description_of(self).operations);
            assert(description@.schemas =~= description_of(self).schemas);
        }
        description
    }
}

} // verus!
