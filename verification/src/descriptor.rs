//! The task descriptor: one task declaration, read from a task block's
//! payload.
//!
//! The payload is a YAML mapping with the recognized keys `image`, `setup`,
//! `script` and `weight`; unknown keys are ignored. `script` is required —
//! its absence is a parse error — while `setup` defaults to no commands,
//! `image` may be left for execution time to reject, and `weight` defaults
//! to one at admission time. YAML lexing itself is serde_yaml's, behind two
//! trusted readers whose results are named pure functions of the payload;
//! every schema decision — which shapes each field may take, which error
//! wins, which defaults apply — is verified code with an exact contract.

use vstd::prelude::*;

verus! {

/// One task declaration: which image to run, setup commands whose output
/// is discarded, the captured script, and the admission weight.
#[derive(Debug, PartialEq, Eq)]
pub struct Instance {
    /// Container image reference; absence is an error at execution time.
    pub image: Option<String>,
    /// Commands run before the script, uncaptured; a failure aborts the task.
    pub setup: Vec<String>,
    /// Commands whose combined output is captured; may be empty.
    pub script: Vec<String>,
    /// Admission cost; `None` means one, zero opts out of admission control.
    pub weight: Option<u32>,
}

/// The recognized top-level payload fields.
#[derive(Debug, Clone, Copy, PartialEq, Eq, Structural)]
pub enum FieldName {
    /// The `image` field.
    Image,
    /// The `setup` field.
    Setup,
    /// The `script` field.
    Script,
    /// The `weight` field.
    Weight,
}

/// Why a payload failed to parse into a descriptor.
#[derive(Debug, PartialEq, Eq)]
pub enum DescriptorError {
    /// The payload is not well formed YAML; the lexer's message.
    Malformed { detail: String },
    /// The required `script` field is missing.
    MissingScript,
    /// A recognized field holds a value of the wrong type.
    WrongType { field: FieldName },
    /// The declared weight does not fit an unsigned 32-bit integer.
    WeightTooLarge,
}

/// The shape a recognized key's value takes in the lexed payload, as plain
/// values; the whole schema decision is made over these.
#[derive(Debug, PartialEq, Eq)]
pub enum FieldValue {
    /// The key does not appear (or the payload is no mapping).
    Absent,
    /// The key holds an explicit null.
    Null,
    /// The key holds a string.
    Str { value: String },
    /// The key holds an unsigned integer.
    UInt { value: u64 },
    /// The key holds a sequence of strings.
    StrList { values: Vec<String> },
    /// The key holds anything else.
    Other,
}

/// What the YAML lexer reports for this payload: `None` when it lexes,
/// else the lexer's message. A pure function of the payload alone.
pub uninterp spec fn payload_error_of(payload: Seq<char>) -> Option<Seq<char>>;

/// The shape the recognized key takes in the lexed payload: a pure
/// function of the payload and the key alone.
pub uninterp spec fn field_of(payload: Seq<char>, key: Seq<char>) -> FieldValue;

/// Relies on serde_yaml::from_str: the lexer's error message when the
/// payload is not well formed YAML, `None` when it is; deterministic in
/// the payload.
#[verifier::external_body]
fn payload_error(payload: &str) -> (r: Option<String>)
    ensures
        match r {
            Some(d) => payload_error_of(payload@) == Some(d@),
            None => payload_error_of(payload@) is None,
        },
{
    serde_yaml::from_str::<serde_yaml::Value>(payload).err().map(|e| e.to_string())
}

/// Relies on serde_yaml::from_str, Value::get and the Value accessors
/// is_null, as_str, as_u64 and as_sequence: the key's value is told apart
/// variant by variant and moved out as plain values, deterministic in the
/// payload and the key.
#[verifier::external_body]
fn read_field(payload: &str, key: &str) -> (r: FieldValue)
    ensures
        r == field_of(payload@, key@),
{
    let v: serde_yaml::Value = match serde_yaml::from_str(payload) { Ok(v) => v, Err(_) => return FieldValue::Other };
    let x = match v.get(key) { Some(x) => x, None => return FieldValue::Absent };
    let list: Option<Vec<String>> = x.as_sequence().and_then(|i| i.iter().map(|e| e.as_str().map(str::to_string)).collect());
    if x.is_null() { FieldValue::Null }
    else if let Some(s) = x.as_str() { FieldValue::Str { value: s.to_string() } }
    else if let Some(n) = x.as_u64() { FieldValue::UInt { value: n } }
    else if let Some(values) = list { FieldValue::StrList { values } }
    else { FieldValue::Other }
}

/// The shapes `image` may take: absent, an explicit null, or a string.
pub open spec fn image_field_ok(f: FieldValue) -> bool {
    f is Absent || f is Null || f is Str
}

/// The shapes `weight` may take: absent, an explicit null, or an unsigned
/// integer.
pub open spec fn weight_field_ok(f: FieldValue) -> bool {
    f is Absent || f is Null || f is UInt
}

/// The shapes a command list may take: absent, or a sequence of strings.
pub open spec fn list_field_ok(f: FieldValue) -> bool {
    f is Absent || f is StrList
}

/// The schema's exact decision over the four extracted field shapes: the
/// first ill-shaped field wins (image, weight, setup, script, in the order
/// the fields are read), then a missing script, then an oversized weight;
/// otherwise the descriptor, with `setup` defaulting to no commands.
pub open spec fn descriptor_matches(
    r: Result<Instance, DescriptorError>,
    image: FieldValue,
    setup: FieldValue,
    script: FieldValue,
    weight: FieldValue,
) -> bool {
    if !image_field_ok(image) {
        r == Err::<Instance, DescriptorError>(
            DescriptorError::WrongType { field: FieldName::Image },
        )
    } else if !weight_field_ok(weight) {
        r == Err::<Instance, DescriptorError>(
            DescriptorError::WrongType { field: FieldName::Weight },
        )
    } else if !list_field_ok(setup) {
        r == Err::<Instance, DescriptorError>(
            DescriptorError::WrongType { field: FieldName::Setup },
        )
    } else if !list_field_ok(script) {
        r == Err::<Instance, DescriptorError>(
            DescriptorError::WrongType { field: FieldName::Script },
        )
    } else if script is Absent {
        r == Err::<Instance, DescriptorError>(DescriptorError::MissingScript)
    } else if (weight matches FieldValue::UInt { value } && value > u32::MAX) {
        r == Err::<Instance, DescriptorError>(DescriptorError::WeightTooLarge)
    } else {
        r matches Ok(d) && {
            &&& d.image == (match image {
                FieldValue::Str { value } => Some(value),
                _ => None::<String>,
            })
            &&& (match setup {
                FieldValue::StrList { values } => d.setup == values,
                _ => d.setup@ == Seq::<String>::empty(),
            })
            &&& (match script {
                FieldValue::StrList { values } => d.script == values,
                _ => false,
            })
            &&& d.weight == (match weight {
                FieldValue::UInt { value } => Some(value as u32),
                _ => None::<u32>,
            })
        }
    }
}

/// Build a descriptor from its extracted fields. `script` is required;
/// `setup` defaults to no commands; a declared weight must fit 32 bits.
pub fn descriptor_from_fields(
    image: Option<String>,
    setup: Option<Vec<String>>,
    script: Option<Vec<String>>,
    weight: Option<u64>,
) -> (r: Result<Instance, DescriptorError>)
    ensures
        script is None ==> r == Err::<Instance, DescriptorError>(DescriptorError::MissingScript),
        script is Some && (match weight {
            Some(w) => w > u32::MAX,
            None => false,
        }) ==> r == Err::<Instance, DescriptorError>(DescriptorError::WeightTooLarge),
        script matches Some(sc) ==> (match weight {
            Some(w) => w > u32::MAX,
            None => false,
        }) || (r matches Ok(d) && {
            &&& d.image == image
            &&& match setup {
                Some(su) => d.setup == su,
                None => d.setup@ == Seq::<String>::empty(),
            }
            &&& d.script == sc
            &&& match weight {
                Some(w) => d.weight == Some(w as u32),
                None => d.weight is None,
            }
        }),
{
    let script = match script {
        Some(sc) => sc,
        None => {
            return Err(DescriptorError::MissingScript);
        },
    };
    let weight: Option<u32> = match weight {
        Some(w) => {
            if w > u32::MAX as u64 {
                return Err(DescriptorError::WeightTooLarge);
            }
            Some(w as u32)
        },
        None => None,
    };
    let setup = match setup {
        Some(su) => su,
        None => Vec::new(),
    };
    Ok(Instance { image, setup, script, weight })
}

/// Apply the schema to the four extracted field shapes; exactly the
/// decision `descriptor_matches` states.
pub fn schema_of_fields(
    image: FieldValue,
    setup: FieldValue,
    script: FieldValue,
    weight: FieldValue,
) -> (r: Result<Instance, DescriptorError>)
    ensures
        descriptor_matches(r, image, setup, script, weight),
{
    let image_val: Option<String> = match image {
        FieldValue::Absent => None,
        FieldValue::Null => None,
        FieldValue::Str { value } => Some(value),
        _ => {
            return Err(DescriptorError::WrongType { field: FieldName::Image });
        },
    };
    let weight_val: Option<u64> = match weight {
        FieldValue::Absent => None,
        FieldValue::Null => None,
        FieldValue::UInt { value } => Some(value),
        _ => {
            return Err(DescriptorError::WrongType { field: FieldName::Weight });
        },
    };
    let setup_val: Option<Vec<String>> = match setup {
        FieldValue::Absent => None,
        FieldValue::StrList { values } => Some(values),
        _ => {
            return Err(DescriptorError::WrongType { field: FieldName::Setup });
        },
    };
    let script_val: Option<Vec<String>> = match script {
        FieldValue::Absent => None,
        FieldValue::StrList { values } => Some(values),
        _ => {
            return Err(DescriptorError::WrongType { field: FieldName::Script });
        },
    };
    descriptor_from_fields(image_val, setup_val, script_val, weight_val)
}

/// Parse one task block payload into its descriptor: a payload the lexer
/// rejects is reported with its message, and anything else is exactly the
/// schema applied to the four extracted field shapes.
pub fn parse_instance(payload: &str) -> (r: Result<Instance, DescriptorError>)
    ensures
        payload_error_of(payload@) matches Some(d) ==> (r matches Err(e) && e matches
            DescriptorError::Malformed { detail } && detail@ == d),
        payload_error_of(payload@) is None ==> descriptor_matches(
            r,
            field_of(payload@, "image"@),
            field_of(payload@, "setup"@),
            field_of(payload@, "script"@),
            field_of(payload@, "weight"@),
        ),
{
    if let Some(detail) = payload_error(payload) {
        return Err(DescriptorError::Malformed { detail });
    }
    let image = read_field(payload, "image");
    let setup = read_field(payload, "setup");
    let script = read_field(payload, "script");
    let weight = read_field(payload, "weight");
    schema_of_fields(image, setup, script, weight)
}

} // verus!
