//! Code generation for clients of query-protocol and REST/XML web services,
//! with the XML event-stream helpers that generated code relies on.

pub mod text;
pub mod botocore;
pub mod generator;
pub mod quirks;
pub mod ec2;
pub mod rest_xml;
pub mod xmlutil;
