//! Modules for generating code for serving calls over HTTP, carrying
//! request and response bodies as structured markup.

use vstd::prelude::*;
use crate::Error;
use crate::text_result_view;
use crate::asset::serialization::spec_serialize;
use crate::asset::serialization::spec_deserialize;
use crate::asset::serialization::serialize;
use crate::asset::serialization::deserialize;
use crate::source::HasSchema;
use crate::source::call::ECMAScript;
use crate::source::call::ECMAScriptConvention;

verus! {

/// The text that [`continuation`] returns: the statement with which both
/// handler branches deliver the serialized output as the JSON response.
pub open spec fn spec_continuation() -> Seq<char> {
    "res.json(serialize(output));\n"@
}

fn continuation() -> (r: &'static str)
    ensures
        r@ == spec_continuation(),
{
    "res.json(serialize(output));\n"
}

/// The text of the request handler emitted for a source: a function that
/// deserializes the request body as the call's input, invokes the call
/// with an injected context value, and serializes the result as the JSON
/// response. A synchronous call is invoked inline; an asynchronous call is
/// invoked with a success callback that responds with the JSON body and an
/// error callback that responds with status 500.
pub open spec fn spec_handle_text(
    input_deserializer: Seq<char>,
    output_serializer: Seq<char>,
    call: Seq<char>,
    convention: ECMAScriptConvention,
) -> Seq<char> {
    "((function() {\nvar deserialize = "@ + input_deserializer + ";\nvar serialize = "@
        + output_serializer + ";\nvar call = "@ + call
        + ";\nreturn function(context, req, res) {\nvar input = deserialize(req.body);\n"@ + (
    match convention {
        ECMAScriptConvention::Synchronous => "var output = call(context, input);\n"@
            + spec_continuation(),
        ECMAScriptConvention::Asynchronous => "call(context, input, function(output) {\n"@
            + spec_continuation() + "}, function(error) {\nres.status(500);\n});\n"@,
    }) + "};\n})())"@
}

/// What [`handle`] emits for a source: the handler text, or the first
/// error met while the source's schema, the codecs for it, its call, and
/// its convention are derived, in that order.
pub open spec fn spec_handle<Source: HasSchema + ECMAScript>(source: &Source) -> Result<
    Seq<char>,
    Error,
> {
    match source.schema_spec() {
        Ok(pair) => match spec_deserialize(pair.0) {
            Ok(input_deserializer) => match spec_serialize(pair.1) {
                Ok(output_serializer) => match source.call_spec() {
                    Ok(call) => match source.convention_spec() {
                        Ok(convention) => Ok(
                            spec_handle_text(
                                input_deserializer,
                                output_serializer,
                                call,
                                convention,
                            ),
                        ),
                        Err(e) => Err(e),
                    },
                    Err(e) => Err(e),
                },
                Err(e) => Err(e),
            },
            Err(e) => Err(e),
        },
        Err(e) => Err(e),
    }
}

/// Generate an ECMAScript expression that evaluates to a function that
/// handles a HTTP request by calling the source.
pub fn handle<Source: HasSchema + ECMAScript>(source: &Source) -> (r: Result<String, Error>)
    ensures
        text_result_view(r) == spec_handle(source),
{
    match source.schema() {
        Ok(pair) => match deserialize(&pair.0) {
            Ok(input_deserializer) => match serialize(&pair.1) {
                Ok(output_serializer) => match source.ecmascript_call() {
                    Ok(call) => match source.ecmascript_convention() {
                        Ok(convention) => {
                            let mut out = String::from_str("((function() {\nvar deserialize = ");
                            out.append(input_deserializer.as_str());
                            out.append(";\nvar serialize = ");
                            out.append(output_serializer.as_str());
                            out.append(";\nvar call = ");
                            out.append(call.as_str());
                            out.append(
                                ";\nreturn function(context, req, res) {\nvar input = deserialize(req.body);\n",
                            );
                            match convention {
                                ECMAScriptConvention::Synchronous => {
                                    out.append("var output = call(context, input);\n");
                                    out.append(continuation());
                                },
                                ECMAScriptConvention::Asynchronous => {
                                    out.append("call(context, input, function(output) {\n");
                                    out.append(continuation());
                                    out.append("}, function(error) {\nres.status(500);\n});\n");
                                },
                            }
                            out.append("};\n})())");
                            proof {
                                assert(out@ =~= spec_handle_text(
                                    input_deserializer@,
                                    output_serializer@,
                                    call@,
                                    convention,
                                ));
                            }
                            Ok(out)
                        },
                        Err(e) => Err(e),
                    },
                    Err(e) => Err(e),
                },
                Err(e) => Err(e),
            },
            Err(e) => Err(e),
        },
        Err(e) => Err(e),
    }
}

} // verus!
