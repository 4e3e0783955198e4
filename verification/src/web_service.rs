//! This module implements the named web service: a source exposed over
//! HTTP under a route name. It emits the server-side request handler and
//! the client-side remote stub, both carried over JSON, for which the
//! serializer and the deserializer are the identity function.

use vstd::prelude::*;
use crate::Error;
use crate::Schema;
use crate::SchemaV;
use crate::text_result_view;
use crate::serialization::spec_serialize;
use crate::serialization::spec_deserialize;
use crate::serialization::serialize;
use crate::serialization::deserialize;
use crate::source::HasSchema;
use crate::source::call::ECMAScript;
use crate::source::call::ECMAScriptConvention;

verus! {

/// A source exposed over HTTP under a route name.
pub struct WebService<Source> {
    /// The route name under which the source is served.
    pub name: String,
    /// The source being exposed.
    pub source: Source,
}

/// The text of the remote stub emitted for a named service: a function
/// that serializes its input, issues an HTTP POST to the service's route
/// under the given URL, and on load deserializes the response body and
/// hands it to the success callback.
pub open spec fn spec_client_call(name: Seq<char>, input: SchemaV, output: SchemaV) -> Seq<char> {
    "((function() {\nvar deserialize = "@ + spec_deserialize(input) + ";\nvar serialize = "@
        + spec_serialize(output)
        + ";\nreturn function(url, input, onSuccess, onError) {\nvar xhr = new XMLHttpRequest();\nxhr.addEventListener('load', function() {\nvar output = deserialize(JSON.parse(xhr.responseText));\nonSuccess(output);\n});\nxhr.open('POST', url + '/"@
        + name + "');\nxhr.send(JSON.stringify(serialize(input)));\n};\n})())"@
}

impl<Source: HasSchema> HasSchema for WebService<Source> {
    open spec fn schema_spec(&self) -> Result<(SchemaV, SchemaV), Error> {
        self.source.schema_spec()
    }

    fn schema(&self) -> (r: Result<(Schema, Schema), Error>) {
        self.source.schema()
    }
}

impl<Source: HasSchema> ECMAScript for WebService<Source> {
    open spec fn call_spec(&self) -> Result<Seq<char>, Error> {
        match self.source.schema_spec() {
            Ok(pair) => Ok(spec_client_call(self.name@, pair.0, pair.1)),
            Err(e) => Err(e),
        }
    }

    open spec fn convention_spec(&self) -> Result<ECMAScriptConvention, Error> {
        Ok(ECMAScriptConvention::Asynchronous)
    }

    fn ecmascript_call(&self) -> (r: Result<String, Error>) {
        match self.source.schema() {
            Ok(pair) => {
                let mut out = String::from_str("((function() {\nvar deserialize = ");
                let deserializer = deserialize(&pair.0);
                out.append(deserializer.as_str());
                out.append(";\nvar serialize = ");
                let serializer = serialize(&pair.1);
                out.append(serializer.as_str());
                out.append(
                    ";\nreturn function(url, input, onSuccess, onError) {\nvar xhr = new XMLHttpRequest();\nxhr.addEventListener('load', function() {\nvar output = deserialize(JSON.parse(xhr.responseText));\nonSuccess(output);\n});\nxhr.open('POST', url + '/",
                );
                out.append(self.name.as_str());
                out.append("');\nxhr.send(JSON.stringify(serialize(input)));\n};\n})())");
                proof {
                    assert(out@ =~= spec_client_call(
                        self.name@,
                        self.schema_spec()->Ok_0.0,
                        self.schema_spec()->Ok_0.1,
                    ));
                }
                Ok(out)
            },
            Err(e) => Err(e),
        }
    }

    fn ecmascript_convention(&self) -> (r: Result<ECMAScriptConvention, Error>) {
        Ok(ECMAScriptConvention::Asynchronous)
    }
}

/// A named web service's call always reports the asynchronous convention,
/// whatever the wrapped source's own convention: the emitted stub delivers
/// its result through callbacks, after a network round-trip.
pub proof fn lemma_named_service_convention_asynchronous<Source: HasSchema>(
    service: &WebService<Source>,
)
    ensures
        service.convention_spec() == Ok::<ECMAScriptConvention, Error>(
            ECMAScriptConvention::Asynchronous,
        ),
{
}

/// The text that [`continuation`] returns: the statement with which both
/// handler branches deliver the serialized output as the JSON response.
pub open spec fn spec_continuation() -> Seq<char> {
    "res.json(serialize(output));\n"@
}

fn continuation() -> (r: &'static str)
    ensures
        r@ == spec_continuation(),
{
    "res.json(serialize(output));\n"
}

/// The text that [`serve`] emits before the handler registrations it is
/// given: an Express application with a JSON body parser.
pub open spec fn spec_serve(body: Seq<char>) -> Seq<char> {
    "var express = require('express');\nvar bodyParser = require('body-parser');\nvar app = express();\napp.use(bodyParser.json({strict: false}));\n"@
        + body
}

/// Generate an ECMAScript statement that sets up an Express application
/// and runs the given handler registrations against it. It does not call
/// `listen` on the application.
pub fn serve(body: &str) -> (r: String)
    ensures
        r@ == spec_serve(body@),
{
    let mut out = String::from_str(
        "var express = require('express');\nvar bodyParser = require('body-parser');\nvar app = express();\napp.use(bodyParser.json({strict: false}));\n",
    );
    out.append(body);
    out
}

/// The text of the registered request handler for a named service: on each
/// request it deserializes the request body as the call's input, invokes
/// the call with the given context expression, and serializes the result as
/// the JSON response. A synchronous call is invoked inline; an asynchronous
/// call is invoked with a success callback that responds with the JSON body
/// and an error callback that responds with status 500.
pub open spec fn spec_handle_text(
    name: Seq<char>,
    input: SchemaV,
    output: SchemaV,
    call: Seq<char>,
    convention: ECMAScriptConvention,
    context: Seq<char>,
) -> Seq<char> {
    "((function() {\nvar deserialize = "@ + spec_deserialize(input) + ";\nvar serialize = "@
        + spec_serialize(output) + ";\nvar call = "@ + call + ";\napp.post('/"@ + name
        + "', function(req, res) {\nvar input = deserialize(req.body);\n"@ + (match convention {
        ECMAScriptConvention::Synchronous => "var output = call("@ + context + ", input);\n"@
            + spec_continuation(),
        ECMAScriptConvention::Asynchronous => "call("@ + context + ", input, function(output) {\n"@
            + spec_continuation() + "}, function(error) {\nres.status(500);\n});\n"@,
    }) + "});\n})());\n"@
}

/// What [`handle`] emits for a service and a context expression: the
/// handler text, or the first error met while the service's schema, call,
/// and convention are derived, in that order.
pub open spec fn spec_handle<Source: HasSchema + ECMAScript>(
    service: &WebService<Source>,
    context: Seq<char>,
) -> Result<Seq<char>, Error> {
    match service.source.schema_spec() {
        Ok(pair) => match service.source.call_spec() {
            Ok(call) => match service.source.convention_spec() {
                Ok(convention) => Ok(
                    spec_handle_text(service.name@, pair.0, pair.1, call, convention, context),
                ),
                Err(e) => Err(e),
            },
            Err(e) => Err(e),
        },
        Err(e) => Err(e),
    }
}

/// Generate an ECMAScript statement that attaches a request handler that
/// handles an HTTP request by calling the source.
pub fn handle<Source: HasSchema + ECMAScript>(service: &WebService<Source>, context: &str) -> (r:
    Result<String, Error>)
    ensures
        text_result_view(r) == spec_handle(service, context@),
{
    match service.source.schema() {
        Ok(pair) => match service.source.ecmascript_call() {
            Ok(call) => match service.source.ecmascript_convention() {
                Ok(convention) => {
                    let mut out = String::from_str("((function() {\nvar deserialize = ");
                    let deserializer = deserialize(&pair.0);
                    out.append(deserializer.as_str());
                    out.append(";\nvar serialize = ");
                    let serializer = serialize(&pair.1);
                    out.append(serializer.as_str());
                    out.append(";\nvar call = ");
                    out.append(call.as_str());
                    out.append(";\napp.post('/");
                    out.append(service.name.as_str());
                    out.append("', function(req, res) {\nvar input = deserialize(req.body);\n");
                    match convention {
                        ECMAScriptConvention::Synchronous => {
                            out.append("var output = call(");
                            out.append(context);
                            out.append(", input);\n");
                            out.append(continuation());
                        },
                        ECMAScriptConvention::Asynchronous => {
                            out.append("call(");
                            out.append(context);
                            out.append(", input, function(output) {\n");
                            out.append(continuation());
                            out.append("}, function(error) {\nres.status(500);\n});\n");
                        },
                    }
                    out.append("});\n})());\n");
                    proof {
                        assert(out@ =~= spec_handle_text(
                            service.name@,
                            service.source.schema_spec()->Ok_0.0,
                            service.source.schema_spec()->Ok_0.1,
                            service.source.call_spec()->Ok_0,
                            convention,
                            context@,
                        ));
                    }
                    Ok(out)
                },
                Err(e) => Err(e),
            },
            Err(e) => Err(e),
        },
        Err(e) => Err(e),
    }
}

} // verus!
