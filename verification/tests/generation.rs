use typefunnel::Error;
use typefunnel::Schema;
use typefunnel::asset;
use typefunnel::serialization;
use typefunnel::source::HasSchema;
use typefunnel::source::call::ECMAScript;
use typefunnel::source::call::ECMAScriptConvention;
use typefunnel::source::call::ECMAScriptModule;
use typefunnel::source::call::purescript_type;
use typefunnel::source::constant::Constant;
use typefunnel::source::postgresql::InputShape;
use typefunnel::source::postgresql::OutputShape;
use typefunnel::source::postgresql::Query;
use typefunnel::source::postgresql::SqlType;
use typefunnel::source::web_service;
use typefunnel::web_service::WebService;
use typefunnel::web_service::handle;
use typefunnel::web_service::serve;

const IDENTITY: &str = "(function(value) {\nreturn value;\n})";

fn example_constant() -> Constant {
    Constant::AllOf(vec![
        Constant::SignedInteger(42),
        Constant::DoublePrecision("3.14".to_string()),
        Constant::AllOf(vec![
            Constant::String("Hello, world!".to_string()),
            Constant::String("Bye, world!".to_string()),
        ]),
    ])
}

const EXAMPLE_CALL: &str = "(function() {\nreturn [\n42,\n3.14,\n[\n'Hello, world!',\n'Bye, world!',\n],\n];\n})";

fn example_query() -> Query {
    Query {
        query: "SELECT '' :: text".to_string(),
        input_shape: InputShape::Row,
        output_shape: OutputShape::Scalar,
        param_types: vec![],
        column_types: vec![SqlType::Text],
    }
}

#[test]
fn test_constant_scenario() {
    let source = example_constant();
    let (input, output) = source.schema().unwrap();
    assert_eq!(input, Schema::AllOf(vec![]));
    assert_eq!(
        output,
        Schema::AllOf(vec![
            Schema::SignedInteger(42, 42),
            Schema::DoublePrecision,
            Schema::AllOf(vec![Schema::String, Schema::String]),
        ])
    );
    assert_eq!(source.ecmascript_call().unwrap(), EXAMPLE_CALL);
}

#[test]
fn test_constant_negative_integer_literal() {
    let source = Constant::SignedInteger(-5);
    assert_eq!(
        source.ecmascript_call().unwrap(),
        "(function() {\nreturn -5;\n})"
    );
}

#[test]
fn test_constant_byte_string_unimplemented() {
    let source = Constant::AllOf(vec![Constant::ByteString(vec![1, 2, 3])]);
    assert_eq!(source.ecmascript_call(), Err(Error::UnsupportedShape));
}

#[test]
fn test_conventions() {
    let constant = example_constant();
    assert_eq!(
        constant.ecmascript_convention(),
        Ok(ECMAScriptConvention::Synchronous)
    );
    let query = example_query();
    assert_eq!(
        query.ecmascript_convention(),
        Ok(ECMAScriptConvention::Asynchronous)
    );
    let bare = web_service::WebService(Schema::AllOf(vec![]), Schema::String);
    assert_eq!(
        bare.ecmascript_convention(),
        Ok(ECMAScriptConvention::Asynchronous)
    );
    let named = WebService { name: "foo".to_string(), source: example_constant() };
    assert_eq!(
        named.ecmascript_convention(),
        Ok(ECMAScriptConvention::Asynchronous)
    );
}

#[test]
fn test_document_codec_is_identity() {
    assert_eq!(serialization::serialize(&Schema::String), IDENTITY);
    assert_eq!(serialization::deserialize(&Schema::String), IDENTITY);
    let nested = Schema::AllOf(vec![Schema::DoublePrecision, Schema::ByteString]);
    assert_eq!(serialization::serialize(&nested), IDENTITY);
    assert_eq!(serialization::deserialize(&nested), IDENTITY);
}

#[test]
fn test_query_call() {
    let source = example_query();
    assert_eq!(
        source.ecmascript_call().unwrap(),
        "(function(client, input, onSuccess, onError) {\n\
         client.query({text: 'SELECT \'\' :: text', values: input, rowMode: 'array'}, function(err, result) {\n\
         if (err !== null) {\nonError(err);\nreturn;\n}\n\
         onSuccess(result.rows[0][0]);\n});\n})"
    );
}

#[test]
fn test_query_call_scalar_input_and_row_output() {
    let source = Query {
        query: "SELECT $1 :: int".to_string(),
        input_shape: InputShape::Scalar,
        output_shape: OutputShape::Row,
        param_types: vec![SqlType::Int4],
        column_types: vec![SqlType::Int4],
    };
    assert_eq!(
        source.ecmascript_call().unwrap(),
        "(function(client, input, onSuccess, onError) {\n\
         client.query({text: 'SELECT $1 :: int', values: [input], rowMode: 'array'}, function(err, result) {\n\
         if (err !== null) {\nonError(err);\nreturn;\n}\n\
         onSuccess(result.rows[0]);\n});\n})"
    );
}

#[test]
fn test_web_service_client() {
    let bare = web_service::WebService(Schema::AllOf(vec![]), Schema::String);
    let expected = format!(
        "((function() {{\nvar deserialize = {IDENTITY};\nvar serialize = {IDENTITY};\n\
         return function(url, input, onSuccess, onError) {{\n\
         var xhr = new XMLHttpRequest();\n\
         xhr.addEventListener('load', function() {{\n\
         var output = deserialize(JSON.parse(xhr.responseText));\n\
         onSuccess(output);\n}});\n\
         xhr.open('POST', url);\n\
         xhr.send(JSON.stringify(serialize(input)));\n}};\n}})())"
    );
    assert_eq!(bare.ecmascript_call().unwrap(), expected);
}

#[test]
fn test_named_web_service_client() {
    let named = WebService { name: "remote".to_string(), source: example_constant() };
    let expected = format!(
        "((function() {{\nvar deserialize = {IDENTITY};\nvar serialize = {IDENTITY};\n\
         return function(url, input, onSuccess, onError) {{\n\
         var xhr = new XMLHttpRequest();\n\
         xhr.addEventListener('load', function() {{\n\
         var output = deserialize(JSON.parse(xhr.responseText));\n\
         onSuccess(output);\n}});\n\
         xhr.open('POST', url + '/remote');\n\
         xhr.send(JSON.stringify(serialize(input)));\n}};\n}})())"
    );
    assert_eq!(named.ecmascript_call().unwrap(), expected);
}

#[test]
fn test_rewrapped_web_service_keeps_schema_pair() {
    let bare = web_service::WebService(Schema::AllOf(vec![]), Schema::String);
    let named = WebService { name: "again".to_string(), source: bare };
    let (input, output) = named.schema().unwrap();
    assert_eq!(input, Schema::AllOf(vec![]));
    assert_eq!(output, Schema::String);
}

#[test]
fn test_serve_prelude() {
    let emitted = serve("HANDLERS");
    assert_eq!(
        emitted,
        "var express = require('express');\n\
         var bodyParser = require('body-parser');\n\
         var app = express();\n\
         app.use(bodyParser.json({strict: false}));\n\
         HANDLERS"
    );
}

#[test]
fn test_handle_synchronous() {
    let service = WebService { name: "foo".to_string(), source: example_constant() };
    let expected = format!(
        "((function() {{\nvar deserialize = {IDENTITY};\nvar serialize = {IDENTITY};\n\
         var call = {EXAMPLE_CALL};\n\
         app.post('/foo', function(req, res) {{\n\
         var input = deserialize(req.body);\n\
         var output = call(null, input);\n\
         res.json(serialize(output));\n\
         }});\n}})());\n"
    );
    assert_eq!(handle(&service, "null").unwrap(), expected);
}

#[test]
fn test_handle_asynchronous() {
    let service = WebService { name: "data".to_string(), source: example_query() };
    let call = service.source.ecmascript_call().unwrap();
    let expected = format!(
        "((function() {{\nvar deserialize = {IDENTITY};\nvar serialize = {IDENTITY};\n\
         var call = {call};\n\
         app.post('/data', function(req, res) {{\n\
         var input = deserialize(req.body);\n\
         call(client, input, function(output) {{\n\
         res.json(serialize(output));\n\
         }}, function(error) {{\nres.status(500);\n}});\n\
         }});\n}})());\n"
    );
    assert_eq!(handle(&service, "client").unwrap(), expected);
}

#[test]
fn test_handle_propagates_schema_error() {
    let service = WebService {
        name: "bad".to_string(),
        source: Query {
            query: "SELECT".to_string(),
            input_shape: InputShape::Row,
            output_shape: OutputShape::Scalar,
            param_types: vec![],
            column_types: vec![],
        },
    };
    assert_eq!(handle(&service, "null"), Err(Error::ShapeMismatch));
}

#[test]
fn test_module_ecmascript_fixed_order() {
    let build = || ECMAScriptModule {
        calls: vec![
            ("alpha".to_string(), Constant::SignedInteger(1)),
            ("beta".to_string(), Constant::SignedInteger(2)),
        ],
    };
    let first = build().ecmascript().unwrap();
    let second = build().ecmascript().unwrap();
    assert_eq!(first, second);
    assert_eq!(
        first,
        "exports.alpha = (function() {\nreturn 1;\n});\n\
         exports.beta = (function() {\nreturn 2;\n});\n"
    );
}

#[test]
fn test_module_purescript_fixed_order() {
    let build = || ECMAScriptModule {
        calls: vec![
            ("alpha".to_string(), Constant::SignedInteger(1)),
            ("beta".to_string(), Constant::String("x".to_string())),
        ],
    };
    let first = build().purescript().unwrap();
    let second = build().purescript().unwrap();
    assert_eq!(first, second);
    assert_eq!(
        first,
        "foreign import alpha :: (Tuple0) -> IOSync Int\n\
         foreign import beta :: (Tuple0) -> IOSync String\n"
    );
}

#[test]
fn test_module_purescript_of_named_service() {
    let service = WebService { name: "remote".to_string(), source: example_constant() };
    let module = ECMAScriptModule { calls: vec![("remote".to_string(), service)] };
    assert_eq!(
        module.purescript().unwrap(),
        "foreign import remote :: (Tuple0) -> IO (Tuple3 Int Number (Tuple2 String String))\n"
    );
}

#[test]
fn test_purescript_type_variants() {
    assert_eq!(
        purescript_type(&Schema::AllOf(vec![
            Schema::SignedInteger(0, 9),
            Schema::String,
        ]))
        .unwrap(),
        "(Tuple2 Int String)"
    );
    assert_eq!(purescript_type(&Schema::AllOf(vec![])).unwrap(), "(Tuple0)");
    assert_eq!(purescript_type(&Schema::DoublePrecision).unwrap(), "Number");
    assert_eq!(purescript_type(&Schema::ByteString).unwrap(), "ByteString");
    assert_eq!(
        purescript_type(&Schema::SinglePrecision),
        Err(Error::UnsupportedShape)
    );
    assert_eq!(
        purescript_type(&Schema::OneOf(vec![])),
        Err(Error::UnsupportedShape)
    );
    assert_eq!(
        purescript_type(&Schema::AllOf(vec![Schema::SinglePrecision])),
        Err(Error::UnsupportedShape)
    );
}

#[test]
fn test_markup_serialize_leaves() {
    assert_eq!(
        asset::serialization::serialize(&Schema::String).unwrap(),
        "(function(document, namespace, parent, value) {\nvar node;\n\
         node = document.createTextNode(value);\nparent.appendChild(node);\n})"
    );
    assert_eq!(
        asset::serialization::serialize(&Schema::SignedInteger(0, 1)).unwrap(),
        "(function(document, namespace, parent, value) {\nvar node;\n\
         node = document.createTextNode('' + value);\nparent.appendChild(node);\n})"
    );
    assert_eq!(
        asset::serialization::serialize(&Schema::ByteString),
        Err(Error::UnsupportedShape)
    );
    assert_eq!(
        asset::serialization::serialize(&Schema::OneOf(vec![])),
        Err(Error::UnsupportedShape)
    );
}

#[test]
fn test_markup_serialize_sequence_positional() {
    let schema = Schema::AllOf(vec![Schema::SignedInteger(0, 1), Schema::String]);
    let number = "(function(document, namespace, parent, value) {\nvar node;\n\
                  node = document.createTextNode('' + value);\nparent.appendChild(node);\n})";
    let text = "(function(document, namespace, parent, value) {\nvar node;\n\
                node = document.createTextNode(value);\nparent.appendChild(node);\n})";
    let expected = format!(
        "(function(document, namespace, parent, value) {{\nvar node;\n\
         node = document.createElementNS(namespace, 'element-0');\n\
         parent.appendChild(node);\n\
         {number}(document, namespace, node, value[0]);\n\
         node = document.createElementNS(namespace, 'element-1');\n\
         parent.appendChild(node);\n\
         {text}(document, namespace, node, value[1]);\n}})"
    );
    assert_eq!(asset::serialization::serialize(&schema).unwrap(), expected);
}

#[test]
fn test_markup_deserialize_sequence_positional() {
    let schema = Schema::AllOf(vec![Schema::String, Schema::DoublePrecision]);
    assert_eq!(
        asset::serialization::deserialize(&schema).unwrap(),
        "(function(node) {\nreturn [\n\
         (function(node) {\nreturn node.textContent;\n})(node.childNodes[0]),\n\
         (function(node) {\nreturn Number(node.textContent);\n})(node.childNodes[1]),\n\
         ];\n})"
    );
    assert_eq!(
        asset::serialization::deserialize(&Schema::OneOf(vec![])),
        Err(Error::UnsupportedShape)
    );
}

#[test]
fn test_markup_handle_synchronous() {
    let source = Constant::String("ok".to_string());
    let deserializer = asset::serialization::deserialize(&Schema::AllOf(vec![])).unwrap();
    let serializer = asset::serialization::serialize(&Schema::String).unwrap();
    let expected = format!(
        "((function() {{\nvar deserialize = {deserializer};\nvar serialize = {serializer};\n\
         var call = (function() {{\nreturn 'ok';\n}});\n\
         return function(context, req, res) {{\n\
         var input = deserialize(req.body);\n\
         var output = call(context, input);\n\
         res.json(serialize(output));\n\
         }};\n}})())"
    );
    assert_eq!(asset::web_service::handle(&source).unwrap(), expected);
}

#[test]
fn test_markup_handle_propagates_codec_error() {
    let source = Constant::ByteString(vec![0]);
    assert_eq!(
        asset::web_service::handle(&source),
        Err(Error::UnsupportedShape)
    );
}
