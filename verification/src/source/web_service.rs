//! This module implements the web service source: a bare schema pair
//! projected through network transport. The emitted callable itself
//! satisfies the source contract, so a wrapped service can be wrapped,
//! served, or exported again.

use vstd::prelude::*;
use crate::Error;
use crate::Schema;
use crate::SchemaV;
use crate::serialization::spec_serialize;
use crate::serialization::spec_deserialize;
use crate::serialization::serialize;
use crate::serialization::deserialize;
use crate::source::HasSchema;
use crate::source::call::ECMAScript;
use crate::source::call::ECMAScriptConvention;

verus! {

/// A web service source: an input schema and an output schema.
pub struct WebService(pub Schema, pub Schema);

/// The text of the remote stub emitted for a web service with the given
/// schema pair: a function that serializes its input, issues an HTTP POST
/// to the given URL, and on load deserializes the response body and hands
/// it to the success callback.
pub open spec fn spec_web_service_call(input: SchemaV, output: SchemaV) -> Seq<char> {
    "((function() {\nvar deserialize = "@ + spec_deserialize(input) + ";\nvar serialize = "@
        + spec_serialize(output)
        + ";\nreturn function(url, input, onSuccess, onError) {\nvar xhr = new XMLHttpRequest();\nxhr.addEventListener('load', function() {\nvar output = deserialize(JSON.parse(xhr.responseText));\nonSuccess(output);\n});\nxhr.open('POST', url);\nxhr.send(JSON.stringify(serialize(input)));\n};\n})())"@
}

impl HasSchema for WebService {
    open spec fn schema_spec(&self) -> Result<(SchemaV, SchemaV), Error> {
        Ok((self.0@, self.1@))
    }

    fn schema(&self) -> (r: Result<(Schema, Schema), Error>) {
        Ok((self.0.deep_clone(), self.1.deep_clone()))
    }
}

impl ECMAScript for WebService {
    open spec fn call_spec(&self) -> Result<Seq<char>, Error> {
        Ok(spec_web_service_call(self.0@, self.1@))
    }

    open spec fn convention_spec(&self) -> Result<ECMAScriptConvention, Error> {
        Ok(ECMAScriptConvention::Asynchronous)
    }

    fn ecmascript_call(&self) -> (r: Result<String, Error>) {
        let mut out = String::from_str("((function() {\nvar deserialize = ");
        let deserializer = deserialize(&self.0);
        out.append(deserializer.as_str());
        out.append(";\nvar serialize = ");
        let serializer = serialize(&self.1);
        out.append(serializer.as_str());
        out.append(
            ";\nreturn function(url, input, onSuccess, onError) {\nvar xhr = new XMLHttpRequest();\nxhr.addEventListener('load', function() {\nvar output = deserialize(JSON.parse(xhr.responseText));\nonSuccess(output);\n});\nxhr.open('POST', url);\nxhr.send(JSON.stringify(serialize(input)));\n};\n})())",
        );
        proof {
            assert(out@ =~= spec_web_service_call(self.0@, self.1@));
        }
        Ok(out)
    }

    fn ecmascript_convention(&self) -> (r: Result<ECMAScriptConvention, Error>) {
        Ok(ECMAScriptConvention::Asynchronous)
    }
}

/// A web service source's call always reports the asynchronous convention:
/// the emitted stub delivers its result through callbacks, after a network
/// round-trip.
pub proof fn lemma_web_service_convention_asynchronous(service: &WebService)
    ensures
        service.convention_spec() == Ok::<ECMAScriptConvention, Error>(
            ECMAScriptConvention::Asynchronous,
        ),
{
}

} // verus!
