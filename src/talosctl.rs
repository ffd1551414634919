//! Reading the YAML that the command-line client prints for volume status
//! and machine-config resources. Running the client is the caller's part;
//! this module turns its output into records.
use vstd::prelude::*;

use crate::storage::{MachineConfigInfo, VolumeStatus};
use crate::text::{seq_starts_with, split_pieces};

verus! {

#[verifier::external_type_specification]
#[verifier::external_body]
pub struct ExYamlValue(serde_yaml::Value);

#[verifier::external_type_specification]
#[verifier::external_body]
pub struct ExYamlError(serde_yaml::Error);

/// Errors of the node client.
#[derive(Clone, Debug)]
pub enum TalosError {
    ConfigNotFound(String),
    ConfigParse(String),
    ConfigInvalid(String),
    ContextNotFound(String),
    Base64Decode(String),
    Io(String),
    Tls(String),
    Transport(String),
    Grpc(String),
    Connection(String),
    NoHomeDirectory,
}

/// The operator-facing text of a client error.
pub open spec fn talos_error_text(e: TalosError) -> Seq<char> {
    match e {
        TalosError::ConfigNotFound(d) => "Config file not found: "@ + d@,
        TalosError::ConfigParse(d) => "Failed to parse config: "@ + d@,
        TalosError::ConfigInvalid(d) => "Invalid config: "@ + d@,
        TalosError::ContextNotFound(d) => "Context not found: "@ + d@,
        TalosError::Base64Decode(d) => "Base64 decode error: "@ + d@,
        TalosError::Io(d) => "IO error: "@ + d@,
        TalosError::Tls(d) => "TLS error: "@ + d@,
        TalosError::Transport(d) => "Transport error: "@ + d@,
        TalosError::Grpc(d) => "gRPC error: "@ + d@,
        TalosError::Connection(d) => "Connection failed: "@ + d@,
        TalosError::NoHomeDirectory => "Could not determine home directory"@,
    }
}

impl TalosError {
    /// Text shown to the operator.
    pub fn message(&self) -> (r: String)
        ensures
            r@ == talos_error_text(*self),
    {
        let (prefix, detail) = match self {
            TalosError::ConfigNotFound(d) => ("Config file not found: ", d.as_str()),
            TalosError::ConfigParse(d) => ("Failed to parse config: ", d.as_str()),
            TalosError::ConfigInvalid(d) => ("Invalid config: ", d.as_str()),
            TalosError::ContextNotFound(d) => ("Context not found: ", d.as_str()),
            TalosError::Base64Decode(d) => ("Base64 decode error: ", d.as_str()),
            TalosError::Io(d) => ("IO error: ", d.as_str()),
            TalosError::Tls(d) => ("TLS error: ", d.as_str()),
            TalosError::Transport(d) => ("Transport error: ", d.as_str()),
            TalosError::Grpc(d) => ("gRPC error: ", d.as_str()),
            TalosError::Connection(d) => ("Connection failed: ", d.as_str()),
            TalosError::NoHomeDirectory => ("Could not determine home directory", ""),
        };
        proof {
            reveal_strlit("");
        }
        let mut s = String::from_str(prefix);
        s.append(detail);
        assert(s@ =~= talos_error_text(*self));
        s
    }
}

/// Whether a text parses as a YAML document.
pub uninterp spec fn yaml_parses(s: Seq<char>) -> bool;

/// The pieces that `str::split` cuts a text into at each "\n---".
pub open spec fn documents_of(s: Seq<char>) -> Seq<Seq<char>> {
    split_pieces(s, "\n---"@)
}

/// What `str::trim` leaves of a text.
pub uninterp spec fn trim_of(s: Seq<char>) -> Seq<char>;

/// Relies on `serde_yaml::from_str` into a `serde_yaml::Value`: whether it
/// succeeds depends on the text alone.
#[verifier::external_body]
fn parse_document(text: &str) -> (r: Result<serde_yaml::Value, serde_yaml::Error>)
    ensures
        r is Ok <==> yaml_parses(text@),
{
    serde_yaml::from_str(text)
}

/// Relies on `serde_yaml::Value::get` with a string key: the value under
/// that key of a mapping, `None` for a missing key or a non-mapping.
#[verifier::external_body]
fn entry<'a>(v: &'a serde_yaml::Value, key: &str) -> Option<&'a serde_yaml::Value> {
    v.get(key)
}

/// Relies on `serde_yaml::Value::as_str`: the text of a string value.
#[verifier::external_body]
fn string_value(v: &serde_yaml::Value) -> Option<String> {
    v.as_str().map(|s| s.to_string())
}

/// Relies on the `Display` of `serde_yaml::Error`.
#[verifier::external_body]
fn yaml_error_text(e: &serde_yaml::Error) -> String {
    e.to_string()
}

/// Relies on `str::split` with the pattern "\n---": the pieces between its
/// non-overlapping occurrences, found from the left.
#[verifier::external_body]
fn split_documents(s: &str) -> (r: Vec<String>)
    ensures
        r@.map_values(|d: String| d@) == documents_of(s@),
{
    s.split("\n---").map(|d| d.to_string()).collect()
}

/// Relies on `str::trim`: the text without leading and trailing white space.
#[verifier::external_body]
fn trimmed(s: &str) -> (r: String)
    ensures
        r@ == trim_of(s@),
{
    s.trim().to_string()
}

/// The string at `doc[a][b]`, if there is one.
fn text_at(doc: &serde_yaml::Value, a: &str, b: &str) -> Option<String> {
    match entry(doc, a) {
        Some(inner) => match entry(inner, b) {
            Some(v) => string_value(v),
            None => None,
        },
        None => None,
    }
}

/// The string at `doc[a][b][c]`, if there is one.
fn text_at3(doc: &serde_yaml::Value, a: &str, b: &str, c: &str) -> Option<String> {
    match entry(doc, a) {
        Some(inner) => text_at(inner, b, c),
        None => None,
    }
}

/// A text, or `default` when absent.
fn or_default(t: Option<String>, default: &str) -> (r: String)
    ensures
        r@ == match t {
            Some(s) => s@,
            None => default@,
        },
{
    match t {
        Some(s) => s,
        None => String::from_str(default),
    }
}

/// The volume that a document's fields describe; none without an id. A
/// missing phase reads "unknown", a missing size "".
pub fn volume_from_fields(
    id: Option<String>,
    encryption_provider: Option<String>,
    phase: Option<String>,
    size: Option<String>,
    filesystem: Option<String>,
    mount_location: Option<String>,
) -> (r: Option<VolumeStatus>)
    ensures
        (id matches Some(i) && i@.len() > 0) <==> r is Some,
        r matches Some(v) ==> {
            &&& Some(v.id) == id
            &&& v.encryption_provider == encryption_provider
            &&& v.phase@ == match phase {
                Some(p) => p@,
                None => "unknown"@,
            }
            &&& v.size@ == match size {
                Some(s) => s@,
                None => ""@,
            }
            &&& v.filesystem == filesystem
            &&& v.mount_location == mount_location
        },
{
    let id = match id {
        Some(i) => i,
        None => {
            return None;
        },
    };
    if id.as_str().unicode_len() == 0 {
        return None;
    }
    Some(
        VolumeStatus {
            id,
            encryption_provider,
            phase: or_default(phase, "unknown"),
            size: or_default(size, ""),
            filesystem,
            mount_location,
        },
    )
}

/// The machine-config record from its fields; a missing version reads "".
pub fn machine_config_from_fields(version: Option<String>, machine_type: Option<String>) -> (r:
    MachineConfigInfo)
    ensures
        r.version@ == match version {
            Some(v) => v@,
            None => ""@,
        },
        r.machine_type == machine_type,
{
    MachineConfigInfo { version: or_default(version, ""), machine_type }
}

/// Document `d` can give a volume: it is not blank once trimmed, and it
/// parses.
pub open spec fn usable_document(d: Seq<char>) -> bool {
    trim_of(d).len() > 0 && yaml_parses(trim_of(d))
}

/// `src[k]` is the document that volume `k` was read from: the sources are
/// usable documents, in strictly increasing order.
pub open spec fn read_in_order(vols: Seq<VolumeStatus>, src: Seq<int>, docs: Seq<Seq<char>>) -> bool {
    &&& src.len() == vols.len()
    &&& forall|k: int| 0 <= k < src.len() ==> 0 <= #[trigger] src[k] < docs.len() && usable_document(docs[src[k]])
    &&& forall|j: int, k: int| 0 <= j < k < src.len() ==> #[trigger] src[j] < #[trigger] src[k]
}

/// Reads volume-status resources from a stream of YAML documents separated
/// by "---" lines. Blank documents, documents that do not parse, and
/// documents without `metadata.id` are skipped; each other document gives
/// one volume, in order. Which documents carry an id is read through
/// `serde_yaml`'s values, which are opaque here, so the contract says that
/// volumes come from distinct usable documents in document order, each with
/// a non-empty id.
pub fn parse_volume_status_yaml(yaml: &str) -> (r: Result<Vec<VolumeStatus>, TalosError>)
    ensures
        r is Ok,
        exists|src: Seq<int>| read_in_order(r->Ok_0@, src, documents_of(yaml@)),
        forall|i: int| 0 <= i < r->Ok_0@.len() ==> (#[trigger] r->Ok_0@[i]).id@.len() > 0,
{
    let docs = split_documents(yaml);
    let ghost views = docs@.map_values(|d: String| d@);
    let ghost mut src: Seq<int> = Seq::empty();
    let mut volumes: Vec<VolumeStatus> = Vec::new();
    let mut i: usize = 0;
    while i < docs.len()
        invariant
            i <= docs@.len(),
            views == docs@.map_values(|d: String| d@),
            views == documents_of(yaml@),
            read_in_order(volumes@, src, views),
            forall|k: int| 0 <= k < src.len() ==> #[trigger] src[k] < i,
            forall|k: int| 0 <= k < volumes@.len() ==> (#[trigger] volumes@[k]).id@.len() > 0,
        decreases docs@.len() - i,
    {
        assert(views[i as int] == docs@[i as int]@);
        let text = trimmed(docs[i].as_str());
        if text.as_str().unicode_len() > 0 {
            match parse_document(text.as_str()) {
                Ok(doc) => {
                    let found = volume_from_fields(
                        text_at(&doc, "metadata", "id"),
                        text_at(&doc, "spec", "encryptionProvider"),
                        text_at(&doc, "spec", "phase"),
                        text_at(&doc, "spec", "prettySize"),
                        text_at(&doc, "spec", "filesystem"),
                        text_at(&doc, "spec", "mountLocation"),
                    );
                    match found {
                        Some(v) => {
                            volumes.push(v);
                            proof {
                                src = src.push(i as int);
                            }
                        },
                        None => {},
                    }
                },
                Err(_) => {},
            }
        }
        i = i + 1;
    }
    Ok(volumes)
}

/// Reads the machine-config resource: its `metadata.version` ("" when
/// absent) and `spec.machine.type`. Text that does not parse gives a
/// connection error naming the parse failure.
pub fn parse_machine_config_yaml(yaml: &str) -> (r: Result<MachineConfigInfo, TalosError>)
    ensures
        r is Ok <==> yaml_parses(yaml@),
        r matches Err(e) ==> e matches TalosError::Connection(m) && seq_starts_with(
            m@,
            "Failed to parse YAML: "@,
        ),
{
    match parse_document(yaml) {
        Ok(doc) => Ok(
            machine_config_from_fields(
                text_at(&doc, "metadata", "version"),
                text_at3(&doc, "spec", "machine", "type"),
            ),
        ),
        Err(e) => {
            let mut m = String::from_str("Failed to parse YAML: ");
            let ghost prefix = m@;
            let t = yaml_error_text(&e);
            m.append(t.as_str());
            assert(m@.subrange(0, prefix.len() as int) =~= prefix);
            Err(TalosError::Connection(m))
        },
    }
}

} // verus!
