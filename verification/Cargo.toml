[package]
name = "awskit"
version = "0.1.0"
edition = "2021"
publish = false

[dependencies]
aws-config = { version = "*", features = ["behavior-version-latest"] }
aws-sdk-athena = "*"
aws-sdk-dynamodb = "*"
aws-sdk-firehose = "*"
aws-sdk-kinesis = "*"
aws-sdk-lambda = "*"
aws-sdk-s3 = "*"
aws-sdk-scheduler = "*"
aws-sdk-secretsmanager = "*"
aws-sdk-sqs = "*"
aws-sdk-ssm = "*"
aws-smithy-types-convert = { version = "*", features = ["convert-streams"] }
chrono = "*"
futures-util = "*"
serde_json = "*"
tokio = { version = "*", features = ["time", "io-util"] }
urlencoding = "*"
uuid = { version = "*", features = ["v7"] }
