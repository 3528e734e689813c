//! Naming rules of the client generator: where a service's schema is read
//! and its generated sources are written, and the Rust types it emits.

use vstd::prelude::*;

verus! {

/// A service for which client code is generated.
#[derive(Debug)]
pub struct AmazonService {
    name: String,
    client_type: String,
    protocol_date: String,
}

/// The files that generating one service reads and writes.
#[derive(Debug)]
pub struct GenerationPlan {
    /// The service's schema document.
    pub definition: String,
    /// The client source generated from the schema.
    pub botocore_destination: String,
    /// The same source once the serialization code is expanded.
    pub serde_destination: String,
}

impl AmazonService {
    pub closed spec fn name_view(&self) -> Seq<char> {
        self.name@
    }

    pub closed spec fn client_type_view(&self) -> Seq<char> {
        self.client_type@
    }

    pub closed spec fn protocol_date_view(&self) -> Seq<char> {
        self.protocol_date@
    }

    /// A service with its short name, client type name and schema date.
    pub fn new(name: String, client_type: String, protocol_date: String) -> (r: Self)
        ensures
            r.name_view() == name@,
            r.client_type_view() == client_type@,
            r.protocol_date_view() == protocol_date@,
    {
        AmazonService { name, client_type, protocol_date }
    }

    /// The client type name.
    pub fn client_type(&self) -> (r: &str)
        ensures
            r@ == self.client_type_view(),
    {
        self.client_type.as_str()
    }
}

/// `dir/file`.
pub open spec fn joined(dir: Seq<char>, file: Seq<char>) -> Seq<char> {
    dir + "/"@ + file
}

fn join(dir: &str, file: String) -> (r: String)
    ensures
        r@ == joined(dir@, file@),
{
    String::from_str(dir).concat("/").concat(file.as_str())
}

/// The files for `service`, whose schema lies below `botocore_path` and whose
/// sources go to `base_destination`.
pub fn generate(service: &AmazonService, botocore_path: &str, base_destination: &str) -> (r: GenerationPlan)
    ensures
        r.definition@ == joined(
            botocore_path@,
            service.name_view() + "/"@ + service.protocol_date_view() + "/service-2.json"@,
        ),
        r.botocore_destination@ == joined(base_destination@, service.name_view() + "_botocore.rs"@),
        r.serde_destination@ == joined(base_destination@, service.name_view() + ".rs"@),
{
    let botocore_file = String::from_str(service.name.as_str()).concat("_botocore.rs");
    let serde_file = String::from_str(service.name.as_str()).concat(".rs");
    let definition_file = String::from_str(service.name.as_str()).concat("/").concat(
        service.protocol_date.as_str(),
    ).concat("/service-2.json");
    GenerationPlan {
        definition: join(botocore_path, definition_file),
        botocore_destination: join(base_destination, botocore_file),
        serde_destination: join(base_destination, serde_file),
    }
}

fn same_text(a: &str, b: &str) -> (r: bool)
    ensures
        r == (a@ == b@),
{
    String::from_str(a) == String::from_str(b)
}

/// Client type names for which an error type is known.
pub open spec fn known_client(client: Seq<char>) -> bool {
    client == "DynamoDBClient"@ || client == "KMSClient"@ || client == "ECSClient"@ || client == "SQSClient"@
}

/// The error type of a known client type.
pub open spec fn error_type_of(client: Seq<char>) -> Seq<char> {
    if client == "DynamoDBClient"@ {
        "DynamoDBError"@
    } else if client == "KMSClient"@ {
        "KMSError"@
    } else if client == "ECSClient"@ {
        "ECSError"@
    } else {
        "SQSError"@
    }
}

/// The name of the error type generated for a client type.
pub fn error_type(client_type_name: &str) -> (r: &'static str)
    requires
        known_client(client_type_name@),
    ensures
        r@ == error_type_of(client_type_name@),
{
    if same_text(client_type_name, "DynamoDBClient") {
        "DynamoDBError"
    } else if same_text(client_type_name, "KMSClient") {
        "KMSError"
    } else if same_text(client_type_name, "ECSClient") {
        "ECSError"
    } else {
        "SQSError"
    }
}

/// Schema shape types that map to a Rust type of their own.
pub open spec fn known_primitive(shape_type: Seq<char>) -> bool {
    ||| shape_type == "string"@
    ||| shape_type == "integer"@
    ||| shape_type == "long"@
    ||| shape_type == "float"@
    ||| shape_type == "double"@
    ||| shape_type == "blob"@
    ||| shape_type == "boolean"@
    ||| shape_type == "timestamp"@
}

/// The Rust type emitted for a primitive shape type; timestamps arrive as
/// fractional seconds and are emitted as `f64`.
pub open spec fn primitive_type_of(shape_type: Seq<char>) -> Seq<char> {
    if shape_type == "string"@ {
        "String"@
    } else if shape_type == "integer"@ {
        "i32"@
    } else if shape_type == "long"@ {
        "i64"@
    } else if shape_type == "float"@ {
        "f32"@
    } else if shape_type == "double"@ {
        "f64"@
    } else if shape_type == "blob"@ {
        "Vec<u8>"@
    } else if shape_type == "boolean"@ {
        "bool"@
    } else {
        "f64"@
    }
}

/// The Rust type emitted for a primitive shape type.
pub fn primitive_type(shape_type: &str) -> (r: String)
    requires
        known_primitive(shape_type@),
    ensures
        r@ == primitive_type_of(shape_type@),
{
    let t = if same_text(shape_type, "string") {
        "String"
    } else if same_text(shape_type, "integer") {
        "i32"
    } else if same_text(shape_type, "long") {
        "i64"
    } else if same_text(shape_type, "float") {
        "f32"
    } else if same_text(shape_type, "double") {
        "f64"
    } else if same_text(shape_type, "blob") {
        "Vec<u8>"
    } else if same_text(shape_type, "boolean") {
        "bool"
    } else {
        "f64"
    };
    String::from_str(t)
}

} // verus!
