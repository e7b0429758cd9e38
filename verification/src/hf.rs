//! HuggingFace-style model pieces: the parsed config and the assembled
//! model.
//!
//! The config is a free-form JSON document of which exactly one field is
//! consumed: `model_type`, a string. The rest of the document is kept as
//! parsed, untouched.

use vstd::prelude::*;

use crate::error::Error;
use crate::tensors::SafeTensorsHandler;

verus! {

#[verifier::external_type_specification]
#[verifier::external_body]
pub struct ExValue(serde_json::Value);

/// The string field `key` of the JSON document in `data`: `None` when the
/// bytes are not a JSON document, `Some(None)` when they are but hold no
/// string under `key`, and `Some(Some(s))` for the field's value `s`. All
/// of it depends on the bytes and the key alone.
pub uninterp spec fn json_text_field(data: Seq<u8>, key: Seq<char>) -> Option<Option<Seq<char>>>;

/// Relies on `serde_json::from_slice`, `Value::get` and `Value::as_str`:
/// parsing, object-field lookup and the string test each depend on the
/// document and the key alone. The `Err` text is the parser's message.
#[verifier::external_body]
fn json_parse_text_field(data: &[u8], key: &str) -> (r: Result<
    (serde_json::Value, Option<String>),
    String,
>)
    ensures
        r is Ok <==> json_text_field(data@, key@) is Some,
        r matches Ok((doc, field)) ==> match field {
            Some(s) => json_text_field(data@, key@) == Some(Some(s@)),
            None => json_text_field(data@, key@) == Some(None::<Seq<char>>),
        },
{
    match serde_json::from_slice::<serde_json::Value>(data) {
        Ok(doc) => {
            let field = doc.get(key).and_then(serde_json::Value::as_str).map(str::to_string);
            Ok((doc, field))
        }
        Err(e) => Err(e.to_string()),
    }
}

/// Represents imported model config
#[derive(Debug)]
pub struct HFConfig {
    /// The one recognized field of the document.
    pub model_type: String,
    other: serde_json::Value,
}

impl HFConfig {
    /// The `model_type` the config declares.
    pub closed spec fn spec_model_type(&self) -> Seq<char> {
        self.model_type@
    }
}

/// Parse a model config document and extract its `model_type` string
/// field. A document that does not parse fails with the parser's message;
/// one without a string `model_type` fails with a static reason. Either
/// failure is annotated with the source path.
pub fn load_config(data: &[u8], path: &str) -> (r: Result<HFConfig, Error>)
    ensures
        r matches Ok(c) ==> json_text_field(data@, "model_type"@) == Some(
            Some(c.spec_model_type()),
        ),
        json_text_field(data@, "model_type"@) is None ==> {
            &&& r matches Err(e)
            &&& e matches Error::WithPath { inner, path: p }
            &&& p@ == path@
            &&& (*inner) is Message
        },
        json_text_field(data@, "model_type"@) matches Some(f) ==> {
            &&& f matches Some(s) ==> (r matches Ok(c) && c.spec_model_type() == s)
            &&& f is None ==> {
                &&& r matches Err(e)
                &&& e matches Error::WithPath { inner, path: p }
                &&& p@ == path@
                &&& *inner matches Error::Message(m)
                &&& m@ == "Config json doesn't contain model_type (str)."@
            }
        },
{
    let (doc, field) = match json_parse_text_field(data, "model_type") {
        Ok(p) => p,
        Err(m) => {
            return Err(Error::Message(m).add_path(path.to_owned()));
        },
    };
    match field {
        Some(model_type) => Ok(HFConfig { model_type, other: doc }),
        None => {
            let reason = "Config json doesn't contain model_type (str).";
            Err(Error::Message(reason.to_owned()).add_path(path.to_owned()))
        },
    }
}

/// Represents imported model
#[derive(Debug)]
pub struct HFModel {
    /// The parsed model config.
    pub config: HFConfig,
    variables: SafeTensorsHandler,
}

impl HFModel {
    /// The set of tensor names the model's archive holds.
    pub closed spec fn spec_tensor_names(&self) -> Set<Seq<char>> {
        self.variables.spec_names()
    }

    /// The parsed model config.
    pub closed spec fn spec_config(&self) -> HFConfig {
        self.config
    }

    /// Assemble a model from its parsed config and its tensor archive.
    pub fn new(config: HFConfig, variables: SafeTensorsHandler) -> (r: HFModel)
        ensures
            r.spec_config() == config,
            r.spec_tensor_names() == variables.spec_names(),
    {
        HFModel { config, variables }
    }

    /// Check if the model have a tensor with a specified name
    pub fn contains(&self, tensor_name: &str) -> (r: bool)
        ensures
            r == self.spec_tensor_names().contains(tensor_name@),
    {
        self.variables.contains(tensor_name)
    }
}

} // verus!
