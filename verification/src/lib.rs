//! Translation of Buck2 build events into the Bazel Build Event Stream, and
//! the requests that publish such a stream to a Build Event Service.
pub mod buck_data;
pub mod build_event_stream;
pub mod client;
pub mod devtools_build;
pub mod protobuf;
pub mod translate;
