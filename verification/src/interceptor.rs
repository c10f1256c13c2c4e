//! Injection of extension fields into the JSON body of a request.

use crate::json::decimals_read_exactly;
use crate::json::encoded;
use crate::json::entries;
use crate::json::from_slice;
use crate::json::lemma_object;
use crate::json::members_of;
use crate::json::nested_within;
use crate::json::no_members;
use crate::json::parsed;
use crate::json::reason_text;
use crate::json::survives_rereading;
use crate::json::to_vec;
use crate::json::value_of;
use crate::json::Json;
use crate::json::MAX_NESTING;
use crate::json::MAX_TEXT;
use crate::request::body_bytes;
use crate::request::content_length;
use crate::request::header_bytes;
use crate::request::header_count;
use crate::request::insert_content_length;
use crate::request::is_header_char;
use crate::request::replace_body;
use crate::request::request_parts;
use crate::request::value_count;
use crate::request::MAX_HEADERS;
use crate::request::RequestParts;
use crate::text::decimal;
use crate::text::decimal_text;
use crate::text::lemma_decimal_is_digits;
use crate::text::lemma_written_one_way;
use crate::text::writes;
use aws_smithy_runtime_api::http::Request;
use aws_smithy_types::body::SdkBody;
use serde_json::Value;
use vstd::prelude::*;
use vstd::utf8::encode_utf8;
use vstd::utf8::encode_utf8_valid_utf8;

verus! {

/// Why nothing was injected into a request.
#[derive(Debug)]
pub enum InjectError {
    /// The body of the request is not in memory.
    BodyNotInMemory,
    /// The body is not JSON.
    InvalidJson(serde_json::Error),
    /// The body is JSON, but no object.
    NotAnObject,
}

impl InjectError {
    /// What is said of the request, where the reader of the body did not say it.
    pub fn message(&self) -> (text: Option<&'static str>)
        ensures
            match *self {
                InjectError::BodyNotInMemory => text matches Some(t) && t@
                    == "expected in-memory body for Alternator request"@,
                InjectError::InvalidJson(_) => text is None,
                InjectError::NotAnObject => text matches Some(t) && t@
                    == "expected JSON object body for Alternator request"@,
            },
    {
        match self {
            InjectError::BodyNotInMemory => Some("expected in-memory body for Alternator request"),
            InjectError::InvalidJson(_) => None,
            InjectError::NotAnObject => Some("expected JSON object body for Alternator request"),
        }
    }
}

/// The members that a list of fields stands for: of two fields with one name the later counts.
pub open spec fn collected(fields: Seq<(String, Value)>) -> Map<Seq<char>, Json>
    decreases fields.len(),
{
    if fields.len() == 0 {
        no_members()
    } else {
        collected(fields.drop_last()).insert(fields.last().0@, value_of(fields.last().1))
    }
}

/// The body that results when `fields` are injected into `body`, where that succeeds.
pub open spec fn injected(fields: Map<Seq<char>, Json>, body: Seq<u8>) -> Option<Seq<u8>> {
    match parsed(body) {
        Ok(Json::Object(members)) => Some(
            encoded(Json::Object(members.union_prefer_right(fields))),
        ),
        _ => None,
    }
}

/// Whether `body` and `fields` hold nothing that is lost when they are written and read again.
pub open spec fn rereadable(fields: Map<Seq<char>, Json>, body: Seq<u8>) -> bool {
    &&& parsed(body) matches Ok(j) && decimals_read_exactly(j, MAX_NESTING as nat)
    &&& survives_rereading(Json::Object(fields))
}

/// Whether `bytes` is the JSON object in `body` with `fields` merged into it: it reads as that
/// object, and to inject more fields into it is to inject all of them into `body` at once.
pub open spec fn reads_as_merged(
    fields: Map<Seq<char>, Json>,
    body: Seq<u8>,
    bytes: Seq<u8>,
) -> bool {
    &&& parsed(body) matches Ok(Json::Object(members)) && parsed(bytes) matches Ok(merged)
        && merged == Json::Object(members.union_prefer_right(fields))
    &&& forall|more: Map<Seq<char>, Json>| #[trigger]
        injected(more, bytes) == injected(fields.union_prefer_right(more), body)
}

/// What becomes of a request, and what is reported, when `fields` are to be injected into it.
pub open spec fn signing_outcome(
    fields: Map<Seq<char>, Json>,
    before: RequestParts,
    after: RequestParts,
    outcome: Result<(), InjectError>,
) -> bool {
    match before.body {
        None => outcome matches Err(InjectError::BodyNotInMemory) && after == before,
        Some(body) => match parsed(body) {
            Err(reason) => outcome matches Err(InjectError::InvalidJson(error)) && reason_text(
                error,
            ) == reason && after == before,
            Ok(Json::Object(members)) => {
                let bytes = encoded(Json::Object(members.union_prefer_right(fields)));
                &&& outcome is Ok
                &&& after == with_body(before, bytes)
                &&& rereadable(fields, body) ==> reads_as_merged(fields, body, bytes)
            },
            Ok(_) => outcome matches Err(InjectError::NotAnObject) && after == before,
        },
    }
}

/// Whether the body of the request is not too long to be read.
pub open spec fn can_be_read(request: RequestParts) -> bool {
    request.body matches Some(body) ==> body.len() <= MAX_TEXT
}

/// Whether the headers of the request are sure to take a `Content-Length`, where it gets one:
/// that is where its body is a JSON object.
pub open spec fn has_room(request: RequestParts) -> bool {
    (request.body matches Some(body) && parsed(body) matches Ok(Json::Object(_)))
        ==> value_count(request.headers) <= MAX_HEADERS
}

/// A request whose body is `body`, with the header that tells its length.
pub open spec fn with_body(request: RequestParts, body: Seq<u8>) -> RequestParts {
    RequestParts {
        headers: request.headers.insert(
            content_length(),
            seq![encode_utf8(decimal(body.len()))],
        ),
        body: Some(body),
        ..request
    }
}

/// Of the fields with one name, the last gives the value.
pub proof fn lemma_last_field_counts(fields: Seq<(String, Value)>, i: int)
    requires
        0 <= i < fields.len(),
        forall|j: int| i < j < fields.len() ==> (#[trigger] fields[j]).0@ != fields[i].0@,
    ensures
        collected(fields).contains_key(fields[i].0@),
        collected(fields)[fields[i].0@] == value_of(fields[i].1),
    decreases fields.len(),
{
    if i < fields.len() - 1 {
        assert(fields.last() == fields[fields.len() - 1]);
        assert(fields.drop_last()[i] == fields[i]);
        lemma_last_field_counts(fields.drop_last(), i);
    }
}

/// A list of fields stands for no other members than those that it names.
pub proof fn lemma_unnamed_field_is_absent(fields: Seq<(String, Value)>, name: Seq<char>)
    requires
        forall|i: int| 0 <= i < fields.len() ==> (#[trigger] fields[i]).0@ != name,
    ensures
        !collected(fields).contains_key(name),
    decreases fields.len(),
{
    if fields.len() > 0 {
        assert(fields.last() == fields[fields.len() - 1]);
        assert forall|i: int| 0 <= i < fields.drop_last().len() implies (
        #[trigger] fields.drop_last()[i]).0@ != name by {
            assert(fields.drop_last()[i] == fields[i]);
        }
        lemma_unnamed_field_is_absent(fields.drop_last(), name);
    }
}

/// A list of fields followed by another stands for the members of the first, overridden by those
/// of the second.
pub proof fn lemma_collected_lists(first: Seq<(String, Value)>, second: Seq<(String, Value)>)
    ensures
        collected(first + second) == collected(first).union_prefer_right(collected(second)),
    decreases second.len(),
{
    let both = first + second;
    if second.len() == 0 {
        assert(both =~= first);
        assert(collected(first).union_prefer_right(no_members()) =~= collected(first));
    } else {
        assert(both.drop_last() =~= first + second.drop_last());
        assert(both.last() == second.last());
        lemma_collected_lists(first, second.drop_last());
        assert(collected(both) =~= collected(first).union_prefer_right(collected(second)));
    }
}

/// The receiver of a body with injected fields reads each of them with its value, and every
/// other member as it was in the body.
pub proof fn lemma_other_members_are_kept(
    fields: Map<Seq<char>, Json>,
    body: Seq<u8>,
    bytes: Seq<u8>,
    name: Seq<char>,
)
    requires
        reads_as_merged(fields, body, bytes),
    ensures
        parsed(body) matches Ok(Json::Object(before)) && parsed(bytes) matches Ok(
            Json::Object(after),
        ) && {
            &&& fields.contains_key(name) ==> after.contains_key(name) && after[name]
                == fields[name]
            &&& !fields.contains_key(name) ==> {
                &&& after.contains_key(name) == before.contains_key(name)
                &&& after.contains_key(name) ==> after[name] == before[name]
            }
        },
{
}

/// To inject the same fields again changes nothing.
pub proof fn lemma_injection_is_idempotent(
    fields: Map<Seq<char>, Json>,
    body: Seq<u8>,
    bytes: Seq<u8>,
)
    requires
        reads_as_merged(fields, body, bytes),
    ensures
        injected(fields, bytes) == injected(fields, body),
{
    assert(fields.union_prefer_right(fields) =~= fields);
}

/// A request into which fields were injected tells the length of its body, and no other length,
/// in its `Content-Length` header. Its other headers are those that it had, with their values in
/// the same order.
pub proof fn lemma_content_length_is_that_of_body(
    fields: Map<Seq<char>, Json>,
    before: RequestParts,
    after: RequestParts,
    name: Seq<char>,
)
    requires
        signing_outcome(fields, before, after, Ok(())),
    ensures
        after.body matches Some(body) && {
            &&& after.headers.contains_key(content_length())
            &&& after.headers[content_length()] == seq![encode_utf8(decimal(body.len()))]
        },
        name != content_length() ==> {
            &&& after.headers.contains_key(name) == before.headers.contains_key(name)
            &&& after.headers.contains_key(name) ==> after.headers[name] == before.headers[name]
        },
{
}

/// To inject the same fields into a request again leaves it as it is.
pub proof fn lemma_request_is_modified_once(
    fields: Map<Seq<char>, Json>,
    before: RequestParts,
    once: RequestParts,
    twice: RequestParts,
    outcome: Result<(), InjectError>,
)
    requires
        before.body matches Some(body) && rereadable(fields, body),
        signing_outcome(fields, before, once, Ok(())),
        signing_outcome(fields, once, twice, outcome),
    ensures
        outcome is Ok,
        twice == once,
{
    lemma_injection_is_idempotent(fields, before.body->0, once.body->0);
    assert(twice.headers =~= once.headers);
}

/// Requests with equal bodies fare alike, whatever their other parts: both are refused, for the
/// same reason, or both get the same body and the same `Content-Length` header.
pub proof fn lemma_equal_bodies_fare_alike(
    fields: Map<Seq<char>, Json>,
    before1: RequestParts,
    after1: RequestParts,
    outcome1: Result<(), InjectError>,
    before2: RequestParts,
    after2: RequestParts,
    outcome2: Result<(), InjectError>,
)
    requires
        signing_outcome(fields, before1, after1, outcome1),
        signing_outcome(fields, before2, after2, outcome2),
        before1.body == before2.body,
    ensures
        match (outcome1, outcome2) {
            (Ok(_), Ok(_)) => after1.body == after2.body && after1.headers[content_length()]
                == after2.headers[content_length()],
            (Err(e1), Err(e2)) => {
                &&& e1 is BodyNotInMemory <==> e2 is BodyNotInMemory
                &&& e1 is InvalidJson <==> e2 is InvalidJson
                &&& e1 is InvalidJson ==> reason_text(e1->InvalidJson_0) == reason_text(
                    e2->InvalidJson_0,
                )
                &&& e1 is NotAnObject <==> e2 is NotAnObject
            },
            _ => false,
        },
{
}

/// Injects key/value pairs into the JSON body of a request before it is signed.
///
/// The SDK serialises requests without knowledge of extension fields such as
/// `VectorIndexes`. The interceptor reads the serialised body, merges its fields, and replaces
/// the body and the `Content-Length` header, so that signature and transport work on the
/// correct byte count.
#[derive(Debug)]
pub struct JsonBodyInjectInterceptor {
    fields: serde_json::Map<String, Value>,
}

impl View for JsonBodyInjectInterceptor {
    type V = Map<Seq<char>, Json>;

    /// The fields to be injected.
    closed spec fn view(&self) -> Map<Seq<char>, Json> {
        members_of(self.fields)
    }
}

impl Clone for JsonBodyInjectInterceptor {
    fn clone(&self) -> (copy: Self)
        ensures
            copy@ == self@,
    {
        JsonBodyInjectInterceptor { fields: self.fields.clone() }
    }
}

/// Sets each of `fields` in `members`.
fn insert_fields(
    members: &mut serde_json::Map<String, Value>,
    fields: &serde_json::Map<String, Value>,
)
    ensures
        members_of(*final(members)) == members_of(*old(members)).union_prefer_right(
            members_of(*fields),
        ),
{
    let ghost before = members_of(*members);
    let mut rest: Vec<(String, Value)> = entries(fields);
    let ghost all = rest@;
    assert(rest@ =~= all.take(rest@.len() as int));
    loop
        invariant
            rest@.len() <= all.len(),
            rest@ == all.take(rest@.len() as int),
            forall|i: int, j: int|
                0 <= i < j < all.len() ==> (#[trigger] all[i]).0@ != (#[trigger] all[j]).0@,
            forall|k: Seq<char>| #[trigger]
                members_of(*members).contains_key(k) <==> before.contains_key(k) || exists|j: int|
                    rest@.len() <= j < all.len() && (#[trigger] all[j]).0@ == k,
            forall|j: int|
                rest@.len() <= j < all.len() ==> members_of(*members)[(#[trigger] all[j]).0@]
                    == value_of(all[j].1),
            forall|k: Seq<char>| #[trigger]
                before.contains_key(k) && (forall|j: int|
                    rest@.len() <= j < all.len() ==> (#[trigger] all[j]).0@ != k)
                    ==> members_of(*members)[k] == before[k],
        ensures
            rest@.len() == 0,
        decreases rest@.len(),
    {
        let ghost n = rest@.len() - 1;
        match rest.pop() {
            Some((key, value)) => {
                let ghost previous = members_of(*members);
                assert(all[n].0 == key && all[n].1 == value);
                members.insert(key, value);
                assert(rest@ =~= all.take(rest@.len() as int));
                assert forall|k: Seq<char>| #[trigger]
                    members_of(*members).contains_key(k) implies before.contains_key(k) || exists|j: int|
                    n <= j < all.len() && (#[trigger] all[j]).0@ == k by {
                    if k == key@ {
                        assert(all[n].0@ == k);
                    } else {
                        assert(previous.contains_key(k));
                    }
                }
                assert forall|k: Seq<char>| #![trigger members_of(*members).contains_key(k)]
                    before.contains_key(k) || (exists|j: int|
                        n <= j < all.len() && (#[trigger] all[j]).0@ == k) implies members_of(
                    *members,
                ).contains_key(k) by {
                    if k != key@ {
                        assert(previous.contains_key(k));
                    }
                }
            },
            None => {
                break;
            },
        }
    }
    proof {
        let now = members_of(*members);
        assert forall|k: Seq<char>| now.contains_key(k) <==> before.contains_key(k) || members_of(
            *fields,
        ).contains_key(k) by {}
        assert(now =~= before.union_prefer_right(members_of(*fields)));
    }
}

/// Two objects that survive rereading still do so when they are merged.
proof fn lemma_merged_survives(members: Map<Seq<char>, Json>, fields: Map<Seq<char>, Json>)
    requires
        survives_rereading(Json::Object(members)),
        survives_rereading(Json::Object(fields)),
    ensures
        survives_rereading(Json::Object(members.union_prefer_right(fields))),
{
    let merged = members.union_prefer_right(fields);
    let depth = MAX_NESTING as nat;
    lemma_object(members, depth);
    lemma_object(fields, depth);
    lemma_object(merged, depth);
    assert forall|k: Seq<char>| #[trigger] merged.contains_key(k) implies nested_within(
        merged[k],
        (depth - 1) as nat,
    ) && decimals_read_exactly(merged[k], (depth - 1) as nat) by {
        assert(members.contains_key(k) || fields.contains_key(k));
    }
}

/// What is written for a merged object behaves as [`reads_as_merged`] says, once it is known to
/// read back.
proof fn lemma_reads_as_merged(fields: Map<Seq<char>, Json>, body: Seq<u8>, bytes: Seq<u8>)
    requires
        parsed(body) matches Ok(Json::Object(members)) && parsed(bytes) matches Ok(merged)
            && merged == Json::Object(members.union_prefer_right(fields)),
    ensures
        reads_as_merged(fields, body, bytes),
{
    let members = parsed(body)->Ok_0->Object_0;
    assert forall|more: Map<Seq<char>, Json>| #[trigger]
        injected(more, bytes) == injected(fields.union_prefer_right(more), body) by {
        assert(members.union_prefer_right(fields).union_prefer_right(more)
            =~= members.union_prefer_right(fields.union_prefer_right(more)));
    }
}

/// Makes `bytes` the body of `request`, and gives the value of the header that tells its length.
pub fn set_body(request: &mut Request<SdkBody>, bytes: Vec<u8>) -> (length: http::HeaderValue)
    ensures
        request_parts(*final(request)) == (RequestParts {
            body: Some(bytes@),
            ..request_parts(*old(request))
        }),
        header_bytes(length) == encode_utf8(decimal(bytes@.len())),
{
    let text: String = decimal_text(bytes.len() as u64);
    proof {
        lemma_decimal_is_digits(bytes@.len());
        assert forall|i: int| 0 <= i < text@.len() implies is_header_char(#[trigger] text@[i]) by {}
    }
    replace_body(request, bytes);
    http::HeaderValue::from_str(text.as_str()).unwrap()
}

impl JsonBodyInjectInterceptor {
    /// Creates an interceptor that injects the given `fields` into every outgoing request body.
    pub fn new(fields: Vec<(String, Value)>) -> (interceptor: Self)
        ensures
            interceptor@ == collected(fields@),
    {
        let mut members: serde_json::Map<String, Value> = serde_json::Map::new();
        let mut i: usize = 0;
        while i < fields.len()
            invariant
                i <= fields.len(),
                members_of(members) == collected(fields@.take(i as int)),
            decreases fields.len() - i,
        {
            let field = &fields[i];
            members.insert(field.0.clone(), field.1.clone());
            i = i + 1;
            assert(fields@.take(i as int).drop_last() =~= fields@.take(i - 1));
        }
        assert(fields@.take(i as int) =~= fields@);
        JsonBodyInjectInterceptor { fields: members }
    }

    /// The name of the interceptor.
    pub fn name(&self) -> (name: &'static str)
        ensures
            name@ == "JsonBodyInjectInterceptor"@,
    {
        "JsonBodyInjectInterceptor"
    }

    /// Merges the fields into `json`, which has to be an object.
    pub fn merge_into(&self, json: &mut Value) -> (outcome: Result<(), InjectError>)
        ensures
            match value_of(*old(json)) {
                Json::Object(members) => outcome is Ok && value_of(*final(json)) == Json::Object(
                    members.union_prefer_right(self@),
                ),
                _ => outcome matches Err(InjectError::NotAnObject) && *final(json) == *old(json),
            },
    {
        match json.as_object_mut() {
            Some(members) => {
                insert_fields(members, &self.fields);
                Ok(())
            },
            None => Err(InjectError::NotAnObject),
        }
    }

    /// Writes `json`, which has to be an object, with the fields merged into it.
    pub fn write_merged(&self, json: Value) -> (outcome: Result<Vec<u8>, InjectError>)
        ensures
            match value_of(json) {
                Json::Object(members) => outcome matches Ok(bytes) && {
                    let merged = Json::Object(members.union_prefer_right(self@));
                    &&& bytes@ == encoded(merged)
                    &&& survives_rereading(merged) ==> (parsed(bytes@) matches Ok(j) && j
                        == merged)
                },
                _ => outcome matches Err(InjectError::NotAnObject),
            },
    {
        let mut merged: Value = json;
        match self.merge_into(&mut merged) {
            Ok(()) => Ok(to_vec(&merged).unwrap()),
            Err(error) => Err(error),
        }
    }

    /// The JSON object in `original` with the fields merged into it.
    pub fn inject(&self, original: &[u8]) -> (outcome: Result<Vec<u8>, InjectError>)
        requires
            original@.len() <= MAX_TEXT,
        ensures
            match parsed(original@) {
                Err(reason) => outcome matches Err(InjectError::InvalidJson(error)) && reason_text(
                    error,
                ) == reason,
                Ok(Json::Object(members)) => outcome matches Ok(bytes) && {
                    &&& bytes@ == encoded(Json::Object(members.union_prefer_right(self@)))
                    &&& rereadable(self@, original@) ==> reads_as_merged(
                        self@,
                        original@,
                        bytes@,
                    )
                },
                Ok(_) => outcome matches Err(InjectError::NotAnObject),
            },
    {
        let json: Value = match from_slice(original) {
            Ok(json) => json,
            Err(error) => {
                return Err(InjectError::InvalidJson(error));
            },
        };
        let ghost before = value_of(json);
        let bytes: Vec<u8> = match self.write_merged(json) {
            Ok(bytes) => bytes,
            Err(error) => {
                return Err(error);
            },
        };
        proof {
            if rereadable(self@, original@) {
                lemma_merged_survives(before->Object_0, self@);
                lemma_reads_as_merged(self@, original@, bytes@);
            }
        }
        Ok(bytes)
    }

    /// Injects the fields into the body of `request`, and tells the new length in its
    /// `Content-Length` header. Where that is not possible the request stays as it is.
    pub fn modify_before_signing(&self, request: &mut Request<SdkBody>) -> (outcome: Result<
        (),
        InjectError,
    >)
        requires
            can_be_read(request_parts(*old(request))),
            has_room(request_parts(*old(request))),
        ensures
            signing_outcome(
                self@,
                request_parts(*old(request)),
                request_parts(*final(request)),
                outcome,
            ),
            outcome is Err ==> *final(request) == *old(request),
    {
        let original: Vec<u8> = match body_bytes(request) {
            Some(bytes) => bytes,
            None => {
                return Err(InjectError::BodyNotInMemory);
            },
        };
        let bytes: Vec<u8> = match self.inject(original.as_slice()) {
            Ok(bytes) => bytes,
            Err(error) => {
                return Err(error);
            },
        };
        let length: http::HeaderValue = set_body(request, bytes);
        proof {
            encode_utf8_valid_utf8(decimal(request_parts(*request).body->0.len()));
        }
        insert_content_length(request, length);
        Ok(())
    }

    /// Does what [`Self::modify_before_signing`] does, where that is sure to end without a
    /// panic. It is not where the body is too long to be read, nor where it is a JSON object and
    /// the headers may have no room for a `Content-Length`: then there is no result, and the
    /// request stays as it is.
    pub fn try_modify_before_signing(&self, request: &mut Request<SdkBody>) -> (outcome: Option<
        Result<(), InjectError>,
    >)
        ensures
            match outcome {
                Some(result) => {
                    &&& can_be_read(request_parts(*old(request)))
                    &&& has_room(request_parts(*old(request)))
                    &&& signing_outcome(
                        self@,
                        request_parts(*old(request)),
                        request_parts(*final(request)),
                        result,
                    )
                    &&& result is Err ==> *final(request) == *old(request)
                },
                None => {
                    &&& !can_be_read(request_parts(*old(request))) || !has_room(
                        request_parts(*old(request)),
                    )
                    &&& *final(request) == *old(request)
                },
            },
    {
        let original: Vec<u8> = match body_bytes(request) {
            Some(bytes) => bytes,
            None => {
                return Some(Err(InjectError::BodyNotInMemory));
            },
        };
        if original.len() > MAX_TEXT {
            return None;
        }
        if header_count(request) <= MAX_HEADERS {
            return Some(self.modify_before_signing(request));
        }
        match self.inject(original.as_slice()) {
            Ok(_) => None,
            Err(error) => Some(Err(error)),
        }
    }
}

/// Which requests are modified, and why the others are refused: fields are injected exactly where
/// the body is in memory and is a JSON object. A refused request stays as it is, and every
/// request keeps its method and address.
pub proof fn lemma_body_tells_outcome(
    fields: Map<Seq<char>, Json>,
    before: RequestParts,
    after: RequestParts,
    outcome: Result<(), InjectError>,
)
    requires
        signing_outcome(fields, before, after, outcome),
    ensures
        outcome is Ok <==> (before.body matches Some(body) && parsed(body) matches Ok(
            Json::Object(_),
        )),
        outcome matches Err(InjectError::BodyNotInMemory) <==> before.body is None,
        outcome matches Err(InjectError::InvalidJson(_)) <==> (before.body matches Some(body)
            && parsed(body) is Err),
        outcome matches Err(InjectError::InvalidJson(error)) ==> parsed(before.body->0) matches Err(
            reason,
        ) && reason == reason_text(error),
        outcome matches Err(InjectError::NotAnObject) <==> (before.body matches Some(body)
            && parsed(body) matches Ok(json) && !(json is Object)),
        outcome is Err ==> after == before,
        after.method == before.method,
        after.uri == before.uri,
{
}

/// A request that is modified gets all the fields: its new body is what is written for the object
/// in the old one, overridden by the fields.
pub proof fn lemma_fields_are_injected(
    fields: Map<Seq<char>, Json>,
    before: RequestParts,
    after: RequestParts,
    merged: Map<Seq<char>, Json>,
)
    requires
        signing_outcome(fields, before, after, Ok(())),
        before.body matches Some(body) && parsed(body) matches Ok(Json::Object(members)) && (forall|
            name: Seq<char>,
        | #[trigger]
            merged.contains_key(name) <==> members.contains_key(name) || fields.contains_key(name))
            && (forall|name: Seq<char>| #[trigger]
            merged.contains_key(name) ==> merged[name] == if fields.contains_key(name) {
                fields[name]
            } else {
                members[name]
            }),
    ensures
        after.body == Some(encoded(Json::Object(merged))),
{
    let members = parsed(before.body->0)->Ok_0->Object_0;
    assert(merged =~= members.union_prefer_right(fields));
}

/// Where nothing is lost in writing, the receiver of a modified request reads an object that has
/// every field with its value, and every other member as it was.
pub proof fn lemma_fields_are_received(
    fields: Map<Seq<char>, Json>,
    before: RequestParts,
    after: RequestParts,
    name: Seq<char>,
)
    requires
        signing_outcome(fields, before, after, Ok(())),
        before.body matches Some(body) && parsed(body) matches Ok(json) && decimals_read_exactly(
            json,
            MAX_NESTING as nat,
        ),
        survives_rereading(Json::Object(fields)),
    ensures
        before.body matches Some(sent) && parsed(sent) matches Ok(Json::Object(members))
            && after.body matches Some(body) && parsed(body) matches Ok(Json::Object(received)) && {
            &&& fields.contains_key(name) ==> received.contains_key(name) && received[name]
                == fields[name]
            &&& !fields.contains_key(name) ==> {
                &&& received.contains_key(name) == members.contains_key(name)
                &&& received.contains_key(name) ==> received[name] == members[name]
            }
        },
{
    lemma_other_members_are_kept(fields, before.body->0, after.body->0, name);
}

/// The header `content-length` of a modified request has one value, which is the number of bytes
/// of its body, in digits. All other headers are those that it had.
pub proof fn lemma_length_is_written_in_header(
    fields: Map<Seq<char>, Json>,
    before: RequestParts,
    after: RequestParts,
    digits: Seq<char>,
    name: Seq<char>,
)
    requires
        signing_outcome(fields, before, after, Ok(())),
        after.body matches Some(body) ==> writes(digits, body.len()),
    ensures
        after.body is Some,
        after.headers.contains_key("content-length"@),
        after.headers["content-length"@] == seq![encode_utf8(digits)],
        name != "content-length"@ ==> {
            &&& after.headers.contains_key(name) == before.headers.contains_key(name)
            &&& after.headers.contains_key(name) ==> after.headers[name] == before.headers[name]
        },
{
    lemma_written_one_way(digits, after.body->0.len());
}

/// A request is declined only where its body is longer than an `i32` counts, or where its body is
/// an object and it has more than 6553 header values.
pub proof fn lemma_few_requests_are_declined(request: RequestParts)
    ensures
        can_be_read(request) <==> (request.body is None || request.body->0.len() <= i32::MAX),
        has_room(request) <==> (value_count(request.headers) <= 6553 || request.body is None
            || parsed(request.body->0) is Err || !(parsed(request.body->0)->Ok_0 is Object)),
{
}

/// Fields can be injected exactly into a JSON object, and what results is written for the object
/// overridden by the fields.
pub proof fn lemma_injected_into_objects(fields: Map<Seq<char>, Json>, body: Seq<u8>)
    ensures
        injected(fields, body) is Some <==> parsed(body) matches Ok(Json::Object(_)),
        parsed(body) matches Ok(Json::Object(members)) ==> injected(fields, body) == Some(
            encoded(Json::Object(members.union_prefer_right(fields))),
        ),
{
}

} // verus!
