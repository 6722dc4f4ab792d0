//! The claims that a bearer token carries. They are read for information
//! only: nothing here checks a signature or an expiry, and no decision
//! of access may rest on them.

use vstd::prelude::*;
use crate::json::{integer_member, json_view, member, text_member, Json};

verus! {

/// The `data` member of a token's payload.
#[derive(Debug, Clone)]
pub struct JwtData {
    pub id: String,
    pub source: String,
    pub source_id: String,
    pub tenant_id: String,
    pub data_type: String,
}

/// A token's payload as it is written: the data, expiry and issue time.
#[derive(Debug, Clone)]
pub struct JwtPayloadRaw {
    pub data: JwtData,
    pub exp: i64,
    pub iat: i64,
}

/// The unverified claims that the library hands on: who the user is and
/// which tenant they belong to.
#[derive(Debug, Clone)]
pub struct JwtPayload {
    pub user_id: String,
    pub tenant_id: String,
}

/// `JwtData` as mathematics.
pub struct JwtDataView {
    pub id: Seq<char>,
    pub source: Seq<char>,
    pub source_id: Seq<char>,
    pub tenant_id: Seq<char>,
    pub data_type: Seq<char>,
}

/// `JwtPayloadRaw` as mathematics.
pub struct JwtPayloadRawView {
    pub data: JwtDataView,
    pub exp: i64,
    pub iat: i64,
}

/// `JwtPayload` as mathematics.
pub struct JwtPayloadView {
    pub user_id: Seq<char>,
    pub tenant_id: Seq<char>,
}

impl View for JwtData {
    type V = JwtDataView;

    open spec fn view(&self) -> JwtDataView {
        JwtDataView {
            id: self.id@,
            source: self.source@,
            source_id: self.source_id@,
            tenant_id: self.tenant_id@,
            data_type: self.data_type@,
        }
    }
}

impl View for JwtPayloadRaw {
    type V = JwtPayloadRawView;

    open spec fn view(&self) -> JwtPayloadRawView {
        JwtPayloadRawView { data: self.data@, exp: self.exp, iat: self.iat }
    }
}

impl View for JwtPayload {
    type V = JwtPayloadView;

    open spec fn view(&self) -> JwtPayloadView {
        JwtPayloadView { user_id: self.user_id@, tenant_id: self.tenant_id@ }
    }
}

/// The data that a JSON value holds when it is an object with the five
/// string members `id`, `source`, `source_id`, `tenant_id` and `type`.
pub open spec fn data_of(value: Json) -> Option<JwtDataView> {
    match (
        value.text_member("id"@),
        value.text_member("source"@),
        value.text_member("source_id"@),
        value.text_member("tenant_id"@),
        value.text_member("type"@),
    ) {
        (Some(id), Some(source), Some(source_id), Some(tenant_id), Some(data_type)) => Some(
            JwtDataView { id, source, source_id, tenant_id, data_type },
        ),
        _ => None,
    }
}

/// The payload that a JSON document holds when it has the fixed shape: a
/// member `data` of the shape above and two integers `exp` and `iat`.
pub open spec fn payload_of(document: Json) -> Option<JwtPayloadRawView> {
    match document.member("data"@) {
        Some(data) => match (
            data_of(data),
            document.integer_member("exp"@),
            document.integer_member("iat"@),
        ) {
            (Some(data), Some(exp), Some(iat)) => Some(JwtPayloadRawView { data, exp, iat }),
            _ => None,
        },
        None => None,
    }
}

/// The claims that are kept of a payload: the user and the tenant.
pub open spec fn claims_of_payload(raw: JwtPayloadRawView) -> JwtPayloadView {
    JwtPayloadView { user_id: raw.data.id, tenant_id: raw.data.tenant_id }
}

/// A document whose `data` holds the five strings, and whose `exp` and
/// `iat` are integers, gives as claims the `id` and the `tenant_id` that
/// are written in it, whatever else it holds.
pub proof fn lemma_claims_are_what_is_written(
    document: Json,
    data: Json,
    written: JwtDataView,
    exp: i64,
    iat: i64,
)
    requires
        document.member("data"@) == Some(data),
        data.text_member("id"@) == Some(written.id),
        data.text_member("source"@) == Some(written.source),
        data.text_member("source_id"@) == Some(written.source_id),
        data.text_member("tenant_id"@) == Some(written.tenant_id),
        data.text_member("type"@) == Some(written.data_type),
        document.integer_member("exp"@) == Some(exp),
        document.integer_member("iat"@) == Some(iat),
    ensures
        payload_of(document) == Some(JwtPayloadRawView { data: written, exp, iat }),
        claims_of_payload(payload_of(document)->Some_0) == (JwtPayloadView {
            user_id: written.id,
            tenant_id: written.tenant_id,
        }),
{
}

/// A document that is no object, or that lacks `data`, `exp` or `iat`,
/// gives no claims.
pub proof fn lemma_no_claims_without_the_members(document: Json)
    requires
        document.member("data"@) is None || document.integer_member("exp"@) is None
            || document.integer_member("iat"@) is None,
    ensures
        payload_of(document) is None,
{
}

impl JwtData {
    /// Reads the data from a JSON value; `None` unless it has the shape.
    pub fn from_document(value: &serde_json::Value) -> (r: Option<JwtData>)
        ensures
            match r {
                Some(data) => data_of(json_view(*value)) == Some(data@),
                None => data_of(json_view(*value)) is None,
            },
    {
        let id = text_member(value, "id");
        let source = text_member(value, "source");
        let source_id = text_member(value, "source_id");
        let tenant_id = text_member(value, "tenant_id");
        let data_type = text_member(value, "type");
        match (id, source, source_id, tenant_id, data_type) {
            (Some(id), Some(source), Some(source_id), Some(tenant_id), Some(data_type)) => Some(
                JwtData { id, source, source_id, tenant_id, data_type },
            ),
            _ => None,
        }
    }
}

impl JwtPayloadRaw {
    /// Reads the payload from a JSON document; `None` unless it has the
    /// fixed shape. Members beyond the shape are ignored.
    pub fn from_document(document: &serde_json::Value) -> (r: Option<JwtPayloadRaw>)
        ensures
            match r {
                Some(raw) => payload_of(json_view(*document)) == Some(raw@),
                None => payload_of(json_view(*document)) is None,
            },
    {
        let data = match member(document, "data") {
            Some(found) => JwtData::from_document(found),
            None => {
                return None;
            },
        };
        let exp = integer_member(document, "exp");
        let iat = integer_member(document, "iat");
        match (data, exp, iat) {
            (Some(data), Some(exp), Some(iat)) => Some(JwtPayloadRaw { data, exp, iat }),
            _ => None,
        }
    }
}

impl JwtPayload {
    /// Keeps the user and the tenant of a payload and drops the rest.
    pub fn from_raw(raw: JwtPayloadRaw) -> (claims: JwtPayload)
        ensures
            claims@ == claims_of_payload(raw@),
    {
        JwtPayload { user_id: raw.data.id, tenant_id: raw.data.tenant_id }
    }
}

} // verus!
