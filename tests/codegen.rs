use rusoto::{AmazonService, error_type, generate, primitive_type};

#[test]
fn generation_plan_names_files() {
    let service = AmazonService::new("sqs".to_string(), "SQSClient".to_string(), "2012-11-05".to_string());
    assert_eq!(service.client_type(), "SQSClient");
    let plan = generate(&service, "codegen/botocore/botocore/data", "out");
    assert_eq!(plan.definition, "codegen/botocore/botocore/data/sqs/2012-11-05/service-2.json");
    assert_eq!(plan.botocore_destination, "out/sqs_botocore.rs");
    assert_eq!(plan.serde_destination, "out/sqs.rs");
}

#[test]
fn error_types_of_clients() {
    assert_eq!(error_type("DynamoDBClient"), "DynamoDBError");
    assert_eq!(error_type("KMSClient"), "KMSError");
    assert_eq!(error_type("ECSClient"), "ECSError");
    assert_eq!(error_type("SQSClient"), "SQSError");
}

#[test]
fn primitive_types_of_shapes() {
    assert_eq!(primitive_type("string"), "String");
    assert_eq!(primitive_type("integer"), "i32");
    assert_eq!(primitive_type("long"), "i64");
    assert_eq!(primitive_type("float"), "f32");
    assert_eq!(primitive_type("double"), "f64");
    assert_eq!(primitive_type("blob"), "Vec<u8>");
    assert_eq!(primitive_type("boolean"), "bool");
    assert_eq!(primitive_type("timestamp"), "f64");
}
