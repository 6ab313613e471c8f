use vstd::prelude::*;
use base64::Engine;
use std::io::Write;

use crate::error::{ArgError, must, missing_property_message};
use crate::text::is_text;

verus! {

/// Property that caps the bytes of one fetch.
pub const CONFIG_SMART_MODULE_MAX_BYTES_KEY: &'static str = "maxBytes";
/// Property that holds a SmartModule's WASM, Base64 encoded.
pub const CONFIG_SMART_MODULE_DATA_KEY: &'static str = "smartmoduleData";
/// Property that names the kind of SmartModule.
pub const CONFIG_SMART_MODULE_TYPE_KEY: &'static str = "smartmoduleType";
/// Property that names a SmartModule already stored in the cluster.
pub const CONFIG_SMART_MODULE_NAME_KEY: &'static str = "smartmoduleName";
/// Property that gives the path of a WASM file.
pub const CONFIG_SMART_MODULE_FILE_KEY: &'static str = "smartmoduleFile";

/// What a SmartModule does to the records of a stream.
#[derive(PartialEq, Eq, Structural, Clone, Copy, Debug)]
pub enum SmartModuleKind {
    Filter,
    Mapping,
    ArrayMap,
    FilterMap,
}

/// The code of a SmartModule: the name of one stored in the cluster, or
/// gzipped WASM sent along with the request.
pub enum SmartModuleWasm {
    Predefined(String),
    AdHoc(Vec<u8>),
}

/// One SmartModule applied to a stream.
pub struct SmartModuleInvocation {
    pub wasm: SmartModuleWasm,
    pub kind: SmartModuleKind,
}

/// The settings of a consumer stream: its SmartModules, and the byte cap of
/// a fetch where one was given.
pub struct ConsumerConfig {
    pub smartmodule: Vec<SmartModuleInvocation>,
    pub max_bytes: Option<i32>,
}

/// A consumer configuration read from a JavaScript object.
pub struct ConfigWrapper {
    pub inner: ConsumerConfig,
}

/// Where the properties say the SmartModule's WASM comes from.
pub enum WasmSource {
    /// No SmartModule at all.
    Absent,
    /// A WASM file at this path.
    File(String),
    /// A SmartModule stored in the cluster under this name.
    Named(String),
    /// WASM given inline, Base64 encoded.
    Encoded(String),
}

/// The SmartModule's WASM once the file that the properties name was read.
pub enum WasmPayload {
    Absent,
    FileContents { path: String, contents: Vec<u8> },
    Named(String),
    Encoded(String),
}

/// The kind that a `smartmoduleType` value names.
pub open spec fn kind_named(t: Seq<char>) -> Option<SmartModuleKind> {
    if t == "filter"@ {
        Some(SmartModuleKind::Filter)
    } else if t == "map"@ {
        Some(SmartModuleKind::Mapping)
    } else if t == "array_map"@ {
        Some(SmartModuleKind::ArrayMap)
    } else if t == "filter_map"@ {
        Some(SmartModuleKind::FilterMap)
    } else {
        None
    }
}

/// The four SmartModule type names read as four different kinds: "filter" a
/// filter, "map" a mapping, "array_map" an array map, "filter_map" a filter
/// map; no two texts name the same kind.
pub proof fn lemma_kind_names_distinct(t: Seq<char>, u: Seq<char>)
    ensures
        kind_named("filter"@) == Some(SmartModuleKind::Filter),
        kind_named("map"@) == Some(SmartModuleKind::Mapping),
        kind_named("array_map"@) == Some(SmartModuleKind::ArrayMap),
        kind_named("filter_map"@) == Some(SmartModuleKind::FilterMap),
        kind_named(t) is Some && kind_named(t) == kind_named(u) ==> t == u,
{
    reveal_strlit("filter");
    reveal_strlit("map");
    reveal_strlit("array_map");
    reveal_strlit("filter_map");
    assert("filter"@.len() == 6 && "map"@.len() == 3);
    assert("array_map"@.len() == 9 && "filter_map"@.len() == 10);
}

/// The message of a `smartmoduleType` value that names no kind.
pub open spec fn invalid_kind_message(t: Seq<char>) -> Seq<char> {
    "Provided SmartModule type: \""@ + t + "\" is not valid"@
}

/// The message of properties that name more than one WASM source.
pub open spec fn ambiguous_source_message() -> Seq<char> {
    "You must either provide one of smartmoduleFile, smartmoduleName or smartmoduleData"@
}

/// The WASM source that the three optional properties name, if they name at
/// most one.
pub open spec fn source_named(
    file: Option<String>,
    name: Option<String>,
    data: Option<String>,
) -> Option<WasmSource> {
    match (file, name, data) {
        (None, None, None) => Some(WasmSource::Absent),
        (Some(f), None, None) => Some(WasmSource::File(f)),
        (None, Some(n), None) => Some(WasmSource::Named(n)),
        (None, None, Some(d)) => Some(WasmSource::Encoded(d)),
        _ => None,
    }
}

/// The message of inline WASM that is not valid Base64; `detail` is the
/// decoder's description of the error.
pub open spec fn base64_error_message(detail: Seq<char>) -> Seq<char> {
    "An error ocurred attempting to decode the Base64 WASM file provided. "@ + detail
}

/// The message of a failure to write a WASM file's contents into the gzip
/// encoder.
pub open spec fn gzip_write_error_message(path: Seq<char>, detail: Seq<char>) -> Seq<char> {
    "An error ocurred while reading WASM file on "@ + path + ": "@ + detail
}

/// The message of a failure to finish the gzip stream.
pub open spec fn gzip_finish_error_message(detail: Seq<char>) -> Seq<char> {
    "An error ocurred while encoding WASM into Gzip. "@ + detail
}

/// Whether a message reports a failure to gzip the WASM file at `path`.
pub open spec fn is_gzip_failure_message(path: Seq<char>, m: Seq<char>) -> bool {
    exists|detail: Seq<char>|
        #![trigger gzip_write_error_message(path, detail)]
        #![trigger gzip_finish_error_message(detail)]
        m == gzip_write_error_message(path, detail) || m == gzip_finish_error_message(detail)
}

/// What Base64 decoding (the standard alphabet, with padding) makes of a text:
/// the decoded bytes, or the debug form of the decode error.
pub uninterp spec fn base64_outcome(text: Seq<char>) -> Result<Seq<u8>, Seq<char>>;

/// What gzipping some bytes at the default level gives: the gzip stream, or
/// nothing where the encoder fails.
pub uninterp spec fn gzip_outcome(data: Seq<u8>) -> Option<Seq<u8>>;

/// `base64::engine::general_purpose::STANDARD.decode`: the decoded bytes, or
/// the debug form of the decode error, each as the text alone determines.
#[verifier::external_body]
fn base64_decode(text: &String) -> (r: Result<Vec<u8>, String>)
    ensures
        r matches Ok(b) ==> (base64_outcome(text@) matches Ok(d) && d == b@),
        r matches Err(m) ==> (base64_outcome(text@) matches Err(e) && e == m@),
{
    match base64::engine::general_purpose::STANDARD.decode(text) {
        Ok(b) => Ok(b),
        Err(e) => Err(format!("{:?}", e)),
    }
}

/// Where gzipping a buffer failed: writing the input, or finishing the stream.
enum GzipFailure {
    Write(String),
    Finish(String),
}

/// `flate2::write::GzEncoder` over a `Vec<u8>` at `Compression::default()`:
/// `new`, then `write_all` of the data, then `finish`. The header it writes
/// holds no time and a fixed system byte, so whether it succeeds, and the
/// stream it gives, depend on the data alone. Which step fails, and the debug
/// text of the I/O error, are not stated.
#[verifier::external_body]
fn gzip(data: &[u8]) -> (r: Result<Vec<u8>, GzipFailure>)
    ensures
        r is Ok <==> gzip_outcome(data@) is Some,
        r matches Ok(b) ==> gzip_outcome(data@) == Some(b@),
{
    let mut encoder = flate2::write::GzEncoder::new(Vec::new(), flate2::Compression::default());
    if let Err(e) = encoder.write_all(data) {
        return Err(GzipFailure::Write(format!("{:?}", e)));
    }
    match encoder.finish() {
        Ok(b) => Ok(b),
        Err(e) => Err(GzipFailure::Finish(format!("{:?}", e))),
    }
}

impl ConfigWrapper {
    /// Reads the SmartModule properties: the kind (required) and at most one
    /// of a file, a stored name, or inline Base64 data.
    pub fn source_from_properties(
        smartmodule_type: Option<String>,
        file: Option<String>,
        name: Option<String>,
        data: Option<String>,
    ) -> (r: Result<(SmartModuleKind, WasmSource), ArgError>)
        ensures
            match smartmodule_type {
                None => r matches Err(e) && e.0@ == missing_property_message(
                    CONFIG_SMART_MODULE_TYPE_KEY@,
                ),
                Some(t) => match kind_named(t@) {
                    None => r matches Err(e) && e.0@ == invalid_kind_message(t@),
                    Some(k) => match source_named(file, name, data) {
                        None => r matches Err(e) && e.0@ == ambiguous_source_message(),
                        Some(s) => r == Ok::<(SmartModuleKind, WasmSource), ArgError>((k, s)),
                    },
                },
            },
    {
        let smartmodule_type = must(CONFIG_SMART_MODULE_TYPE_KEY, smartmodule_type)?;
        let kind = if is_text(&smartmodule_type, "filter") {
            SmartModuleKind::Filter
        } else if is_text(&smartmodule_type, "map") {
            SmartModuleKind::Mapping
        } else if is_text(&smartmodule_type, "array_map") {
            SmartModuleKind::ArrayMap
        } else if is_text(&smartmodule_type, "filter_map") {
            SmartModuleKind::FilterMap
        } else {
            return Err(
                ArgError::framed(
                    "Provided SmartModule type: \"",
                    smartmodule_type.as_str(),
                    "\" is not valid",
                ),
            );
        };
        let source = match (file, name, data) {
            (None, None, None) => WasmSource::Absent,
            (Some(f), None, None) => WasmSource::File(f),
            (None, Some(n), None) => WasmSource::Named(n),
            (None, None, Some(d)) => WasmSource::Encoded(d),
            _ => {
                return Err(
                    ArgError::other(
                        "You must either provide one of smartmoduleFile, smartmoduleName or smartmoduleData",
                    ),
                );
            },
        };
        Ok((kind, source))
    }

    /// The error of a WASM file that cannot be opened; `detail` describes the
    /// I/O error.
    pub fn open_error(path: &str, detail: &str) -> (e: ArgError)
        ensures
            e.0@ == "An error ocurred opening file on "@ + path@ + ". "@ + detail@,
    {
        let mut m = String::from_str("An error ocurred opening file on ");
        m.append(path);
        m.append(". ");
        m.append(detail);
        ArgError(m)
    }

    /// The error of a WASM file whose contents cannot be read.
    pub fn read_error(path: &str, detail: &str) -> (e: ArgError)
        ensures
            e.0@ == "Failed to read contents of file on "@ + path@ + ": "@ + detail@,
    {
        let mut m = String::from_str("Failed to read contents of file on ");
        m.append(path);
        m.append(": ");
        m.append(detail);
        ArgError(m)
    }

    /// The consumer configuration for a SmartModule of `kind` whose WASM is
    /// `payload`: file contents are gzipped, inline data is Base64 decoded, a
    /// stored name is passed on, and no source means no SmartModule.
    pub fn build(kind: SmartModuleKind, payload: WasmPayload, max_bytes: Option<i32>) -> (r:
        Result<ConfigWrapper, ArgError>)
        ensures
            r matches Ok(c) ==> c.inner.max_bytes == max_bytes,
            match payload {
                WasmPayload::Absent => r matches Ok(c) && c.inner.smartmodule@.len() == 0,
                WasmPayload::Named(n) => r matches Ok(c) && c.inner.smartmodule@.len() == 1
                    && c.inner.smartmodule@[0].kind == kind
                    && (c.inner.smartmodule@[0].wasm matches SmartModuleWasm::Predefined(m)
                    && m@ == n@),
                WasmPayload::Encoded(d) => match base64_outcome(d@) {
                    Ok(wasm) => r matches Ok(c) && c.inner.smartmodule@.len() == 1
                        && c.inner.smartmodule@[0].kind == kind
                        && (c.inner.smartmodule@[0].wasm matches SmartModuleWasm::AdHoc(b)
                        && b@ == wasm),
                    Err(detail) => r matches Err(e) && e.0@ == base64_error_message(detail),
                },
                WasmPayload::FileContents { path, contents } => match gzip_outcome(contents@) {
                    Some(z) => r matches Ok(c) && c.inner.smartmodule@.len() == 1
                        && c.inner.smartmodule@[0].kind == kind
                        && (c.inner.smartmodule@[0].wasm matches SmartModuleWasm::AdHoc(b)
                        && b@ == z),
                    None => r matches Err(e) && is_gzip_failure_message(path@, e.0@),
                },
            },
    {
        let smartmodule: Vec<SmartModuleInvocation> = match payload {
            WasmPayload::Absent => Vec::new(),
            WasmPayload::FileContents { path, contents } => {
                let bytes = match gzip(contents.as_slice()) {
                    Ok(b) => b,
                    Err(GzipFailure::Write(detail)) => {
                        let mut m = String::from_str("An error ocurred while reading WASM file on ");
                        m.append(path.as_str());
                        m.append(": ");
                        m.append(detail.as_str());
                        assert(m@ == gzip_write_error_message(path@, detail@));
                        return Err(ArgError(m));
                    },
                    Err(GzipFailure::Finish(detail)) => {
                        let mut m = String::from_str(
                            "An error ocurred while encoding WASM into Gzip. ",
                        );
                        m.append(detail.as_str());
                        assert(m@ == gzip_finish_error_message(detail@));
                        return Err(ArgError(m));
                    },
                };
                let mut v = Vec::new();
                v.push(SmartModuleInvocation { wasm: SmartModuleWasm::AdHoc(bytes), kind });
                v
            },
            WasmPayload::Named(n) => {
                let mut v = Vec::new();
                v.push(SmartModuleInvocation { wasm: SmartModuleWasm::Predefined(n), kind });
                v
            },
            WasmPayload::Encoded(d) => {
                let wasm = match base64_decode(&d) {
                    Ok(b) => b,
                    Err(detail) => {
                        let mut m = String::from_str(
                            "An error ocurred attempting to decode the Base64 WASM file provided. ",
                        );
                        m.append(detail.as_str());
                        assert(m@ == base64_error_message(detail@));
                        return Err(ArgError(m));
                    },
                };
                let mut v = Vec::new();
                v.push(SmartModuleInvocation { wasm: SmartModuleWasm::AdHoc(wasm), kind });
                v
            },
        };
        Ok(ConfigWrapper { inner: ConsumerConfig { smartmodule, max_bytes } })
    }
}

} // verus!
