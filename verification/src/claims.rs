//! Decoding an introspection response into a typed authorization record.

use crate::json::{
    as_object, as_u32, bool_from_value, bool_mismatch, error_message, error_text, json_model,
    key_names, object_entries, object_get, string_from_value, string_mismatch, texts,
    u32_from_value, u32_mismatch, Json,
};
use vstd::prelude::*;
use vstd::string::*;

verus! {

/// The claims that the decoder reads.
#[derive(Clone, Copy, Debug, PartialEq, Eq)]
pub enum Field {
    Active,
    Exp,
    Sub,
    Roles,
}

impl Field {
    /// The name under which the claim is reported.
    pub open spec fn spec_name(self) -> Seq<char> {
        match self {
            Field::Active => "active"@,
            Field::Exp => "exp"@,
            Field::Sub => "sub"@,
            Field::Roles => "roles"@,
        }
    }

    /// The name under which the claim is reported.
    pub fn name(&self) -> (name: &'static str)
        ensures
            name@ == self.spec_name(),
    {
        match self {
            Field::Active => "active",
            Field::Exp => "exp",
            Field::Sub => "sub",
            Field::Roles => "roles",
        }
    }
}

/// Why a document could not be decoded.
#[derive(Clone, Debug, PartialEq, Eq)]
pub enum DecodeError {
    /// The document is not a JSON object.
    NotAnObject,
    /// A required claim is absent.
    MissingField(Field),
    /// A claim is present with the wrong type; the text says what was found.
    InvalidFieldType(Field, String),
}

/// The model of a `DecodeError`.
pub enum DecodeFailure {
    NotAnObject,
    MissingField(Field),
    InvalidFieldType(Field, Seq<char>),
}

impl View for DecodeError {
    type V = DecodeFailure;

    open spec fn view(&self) -> DecodeFailure {
        match *self {
            DecodeError::NotAnObject => DecodeFailure::NotAnObject,
            DecodeError::MissingField(field) => DecodeFailure::MissingField(field),
            DecodeError::InvalidFieldType(field, text) => DecodeFailure::InvalidFieldType(
                field,
                text@,
            ),
        }
    }
}

impl DecodeFailure {
    /// The failure in words.
    pub open spec fn message(self) -> Seq<char> {
        match self {
            DecodeFailure::NotAnObject => "Expected JSON object"@,
            DecodeFailure::MissingField(field) => "Property `"@ + field.spec_name()
                + "` not found"@,
            DecodeFailure::InvalidFieldType(Field::Roles, text) => text,
            DecodeFailure::InvalidFieldType(_, text) => "TokenInfo has invalid format: "@ + text,
        }
    }
}

impl DecodeError {
    /// The failure in words.
    pub fn message(&self) -> (text: String)
        ensures
            text@ == self@.message(),
    {
        match self {
            DecodeError::NotAnObject => String::from_str("Expected JSON object"),
            DecodeError::MissingField(field) => String::from_str("Property `").concat(
                field.name(),
            ).concat("` not found"),
            DecodeError::InvalidFieldType(Field::Roles, text) => text.clone(),
            DecodeError::InvalidFieldType(_, text) => String::from_str(
                "TokenInfo has invalid format: ",
            ).concat(text.as_str()),
        }
    }
}

/// The authorization record of one token.
#[derive(Clone, Debug, PartialEq, Eq)]
pub struct TokenInfo {
    /// The provider's verdict on whether the token is live.
    pub active: bool,
    /// UNIX seconds at which the token's validity ends.
    pub expires_at: u32,
    /// The stable identifier of the user.
    pub subject: String,
    /// The roles granted within the configured project, each listed once.
    pub roles: Vec<String>,
}

/// The model of a `TokenInfo`: its roles form a set.
pub struct Claims {
    pub active: bool,
    pub expires_at: u32,
    pub subject: Seq<char>,
    pub roles: Set<Seq<char>>,
}

impl View for TokenInfo {
    type V = Claims;

    open spec fn view(&self) -> Claims {
        Claims {
            active: self.active,
            expires_at: self.expires_at,
            subject: self.subject@,
            roles: texts(self.roles@).to_set(),
        }
    }
}

impl TokenInfo {
    /// No role is listed twice.
    pub open spec fn wf(&self) -> bool {
        texts(self.roles@).no_duplicates()
    }
}

/// The name of the claim that holds the roles granted within a project.
pub open spec fn role_claim_key(project_id: Seq<char>) -> Seq<char> {
    "urn:zitadel:iam:org:project:"@ + project_id + ":roles"@
}

/// The text reported for a roles claim that is not an object.
pub open spec fn roles_mismatch() -> Seq<char> {
    "Expected JSON object"@
}

/// The roles that an object grants within a project: the key names of the
/// project's claim, none where the claim is absent.
pub open spec fn decoded_roles(entries: Map<Seq<char>, Json>, project_id: Seq<char>) -> Result<
    Set<Seq<char>>,
    DecodeFailure,
> {
    let key = role_claim_key(project_id);
    if !entries.dom().contains(key) {
        Ok(Set::empty())
    } else {
        match entries[key] {
            Json::Object(granted) => Ok(granted.dom()),
            _ => Err(DecodeFailure::InvalidFieldType(Field::Roles, roles_mismatch())),
        }
    }
}

/// What a document decodes to. The claims are examined in the order `active`,
/// `exp`, `sub`, roles, and the first one at fault is reported.
pub open spec fn decoded(json: Json, project_id: Seq<char>) -> Result<Claims, DecodeFailure> {
    match json {
        Json::Object(entries) => {
            if !entries.dom().contains("active"@) {
                Err(DecodeFailure::MissingField(Field::Active))
            } else if !(entries["active"@] is Bool) {
                Err(
                    DecodeFailure::InvalidFieldType(
                        Field::Active,
                        bool_mismatch(entries["active"@]),
                    ),
                )
            } else if !entries.dom().contains("exp"@) {
                Err(DecodeFailure::MissingField(Field::Exp))
            } else if as_u32(entries["exp"@]) is None {
                Err(DecodeFailure::InvalidFieldType(Field::Exp, u32_mismatch(entries["exp"@])))
            } else if !entries.dom().contains("sub"@) {
                Err(DecodeFailure::MissingField(Field::Sub))
            } else if !(entries["sub"@] is String) {
                Err(DecodeFailure::InvalidFieldType(Field::Sub, string_mismatch(entries["sub"@])))
            } else {
                match decoded_roles(entries, project_id) {
                    Ok(roles) => Ok(
                        Claims {
                            active: entries["active"@]->Bool_0,
                            expires_at: as_u32(entries["exp"@])->0,
                            subject: entries["sub"@]->String_0,
                            roles,
                        },
                    ),
                    Err(failure) => Err(failure),
                }
            }
        },
        _ => Err(DecodeFailure::NotAnObject),
    }
}

/// The document is an object whose `active`, `exp` and `sub` claims are
/// present and well typed.
pub open spec fn has_required_claims(json: Json) -> bool {
    &&& json matches Json::Object(entries)
    &&& entries.dom().contains("active"@) && entries["active"@] is Bool
    &&& entries.dom().contains("exp"@) && as_u32(entries["exp"@]) is Some
    &&& entries.dom().contains("sub"@) && entries["sub"@] is String
}

/// A document with the required claims and no roles claim for the project
/// decodes to a record that carries those claims and no role.
pub proof fn lemma_absent_role_claim_grants_nothing(json: Json, project_id: Seq<char>)
    requires
        has_required_claims(json),
        !json->Object_0.dom().contains(role_claim_key(project_id)),
    ensures
        decoded(json, project_id) matches Ok(claims) && claims.roles == Set::<Seq<char>>::empty()
            && claims.active == json->Object_0["active"@]->Bool_0 && Some(claims.expires_at)
            == as_u32(json->Object_0["exp"@]) && claims.subject
            == json->Object_0["sub"@]->String_0,
{
}

/// Where the project's roles claim is an object, the decoded roles are exactly
/// its key names, whatever stands under those keys.
pub proof fn lemma_roles_are_claim_keys(
    json: Json,
    project_id: Seq<char>,
    granted: Map<Seq<char>, Json>,
)
    requires
        has_required_claims(json),
        json->Object_0.dom().contains(role_claim_key(project_id)),
        json->Object_0[role_claim_key(project_id)] == Json::Object(granted),
    ensures
        decoded(json, project_id) matches Ok(claims) && claims.roles == granted.dom(),
{
}

/// Two documents that agree on the required claims and whose roles claims have
/// the same key names decode to the same record.
pub proof fn lemma_role_values_are_ignored(first: Json, second: Json, project_id: Seq<char>)
    requires
        has_required_claims(first),
        has_required_claims(second),
        first->Object_0["active"@] == second->Object_0["active"@],
        first->Object_0["exp"@] == second->Object_0["exp"@],
        first->Object_0["sub"@] == second->Object_0["sub"@],
        first->Object_0.dom().contains(role_claim_key(project_id)),
        second->Object_0.dom().contains(role_claim_key(project_id)),
        first->Object_0[role_claim_key(project_id)] is Object,
        second->Object_0[role_claim_key(project_id)] is Object,
        first->Object_0[role_claim_key(project_id)]->Object_0.dom()
            == second->Object_0[role_claim_key(project_id)]->Object_0.dom(),
    ensures
        decoded(first, project_id) is Ok,
        decoded(first, project_id) == decoded(second, project_id),
{
}

/// Every document that is not an object is rejected as such.
pub proof fn lemma_non_object_is_rejected(json: Json, project_id: Seq<char>)
    requires
        !(json is Object),
    ensures
        decoded(json, project_id) == Err::<Claims, DecodeFailure>(DecodeFailure::NotAnObject),
{
}

/// An object whose `active` and `exp` claims are in order and which has no
/// `sub` claim is rejected, and the claim reported missing is named "sub".
pub proof fn lemma_missing_subject_is_reported(json: Json, project_id: Seq<char>)
    requires
        json matches Json::Object(entries) && entries.dom().contains("active"@)
            && entries["active"@] is Bool && entries.dom().contains("exp"@) && as_u32(
            entries["exp"@],
        ) is Some && !entries.dom().contains("sub"@),
    ensures
        decoded(json, project_id) == Err::<Claims, DecodeFailure>(
            DecodeFailure::MissingField(Field::Sub),
        ),
        Field::Sub.spec_name() == "sub"@,
{
}

/// Claims other than `active`, `exp`, `sub` and the project's roles claim have
/// no bearing on the result.
pub proof fn lemma_unknown_claims_are_ignored(
    json: Json,
    project_id: Seq<char>,
    name: Seq<char>,
    extra: Json,
)
    requires
        json is Object,
        name != "active"@,
        name != "exp"@,
        name != "sub"@,
        name != role_claim_key(project_id),
    ensures
        decoded(Json::Object(json->Object_0.insert(name, extra)), project_id) == decoded(
            json,
            project_id,
        ),
{
}

/// The model of a decoding result.
pub open spec fn decode_outcome(r: Result<TokenInfo, DecodeError>) -> Result<Claims, DecodeFailure> {
    match r {
        Ok(info) => Ok(info@),
        Err(error) => Err(error@),
    }
}

fn to_object_kv_map(value: &serde_json::Value) -> (r: Result<
    &serde_json::Map<String, serde_json::Value>,
    DecodeError,
>)
    ensures
        match r {
            Ok(kv_map) => json_model(*value) == Json::Object(object_entries(*kv_map)),
            Err(error) => error@ == DecodeFailure::NotAnObject && !(json_model(*value) is Object),
        },
{
    match as_object(value) {
        Some(props) => Ok(props),
        None => Err(DecodeError::NotAnObject),
    }
}

fn decode_err(field: Field, err: serde_json::Error) -> (error: DecodeError)
    ensures
        error@ == DecodeFailure::InvalidFieldType(field, error_text(err)),
{
    DecodeError::InvalidFieldType(field, error_message(&err))
}

fn get_field<'a>(field: Field, kv_map: &'a serde_json::Map<String, serde_json::Value>) -> (r: Result<
    &'a serde_json::Value,
    DecodeError,
>)
    ensures
        match r {
            Ok(value) => object_entries(*kv_map).dom().contains(field.spec_name()) && json_model(
                *value,
            ) == object_entries(*kv_map)[field.spec_name()],
            Err(error) => !object_entries(*kv_map).dom().contains(field.spec_name()) && error@
                == DecodeFailure::MissingField(field),
        },
{
    match object_get(kv_map, field.name()) {
        Some(value) => Ok(value),
        None => Err(DecodeError::MissingField(field)),
    }
}

fn decode_roles_set(all_roles_value: &serde_json::Value) -> (r: Result<Vec<String>, DecodeError>)
    ensures
        match r {
            Ok(roles) => json_model(*all_roles_value) is Object && texts(roles@).no_duplicates()
                && texts(roles@).to_set() == json_model(*all_roles_value)->Object_0.dom(),
            Err(error) => !(json_model(*all_roles_value) is Object) && error@
                == DecodeFailure::InvalidFieldType(Field::Roles, roles_mismatch()),
        },
{
    match as_object(all_roles_value) {
        Some(granted) => Ok(key_names(granted)),
        None => Err(
            DecodeError::InvalidFieldType(Field::Roles, String::from_str("Expected JSON object")),
        ),
    }
}

fn decode_project_roles(key: String, kv_map: &serde_json::Map<String, serde_json::Value>) -> (r:
    Result<Vec<String>, DecodeError>)
    ensures
        match r {
            Ok(roles) => texts(roles@).no_duplicates() && ({
                let entries = object_entries(*kv_map);
                if entries.dom().contains(key@) {
                    entries[key@] is Object && texts(roles@).to_set()
                        == entries[key@]->Object_0.dom()
                } else {
                    texts(roles@).to_set() == Set::<Seq<char>>::empty()
                }
            }),
            Err(error) => object_entries(*kv_map).dom().contains(key@) && !(object_entries(
                *kv_map,
            )[key@] is Object) && error@ == DecodeFailure::InvalidFieldType(
                Field::Roles,
                roles_mismatch(),
            ),
        },
{
    match object_get(kv_map, key.as_str()) {
        Some(all_roles_value) => decode_roles_set(all_roles_value),
        None => {
            let roles: Vec<String> = Vec::new();
            assert(texts(roles@) =~= Seq::<Seq<char>>::empty());
            assert(texts(roles@).to_set() =~= Set::<Seq<char>>::empty());
            Ok(roles)
        },
    }
}

/// Builds the name of the claim that holds a project's roles.
pub fn project_roles_key(project_id: &str) -> (key: String)
    ensures
        key@ == role_claim_key(project_id@),
{
    String::from_str("urn:zitadel:iam:org:project:").concat(project_id).concat(":roles")
}

/// Decodes an introspection response. The result is exactly what `decoded`
/// gives for the document that `value` holds, and a decoded record lists no
/// role twice.
pub fn decode_introspection_result(value: &serde_json::Value, project_id: &String) -> (r: Result<
    TokenInfo,
    DecodeError,
>)
    ensures
        decode_outcome(r) == decoded(json_model(*value), project_id@),
        r matches Ok(info) ==> info.wf(),
{
    let kv_map = match to_object_kv_map(value) {
        Ok(kv_map) => kv_map,
        Err(error) => { return Err(error); },
    };
    let active = match get_field(Field::Active, kv_map) {
        Ok(found) => match bool_from_value(found) {
            Ok(active) => active,
            Err(err) => { return Err(decode_err(Field::Active, err)); },
        },
        Err(error) => { return Err(error); },
    };
    let expires_at = match get_field(Field::Exp, kv_map) {
        Ok(found) => match u32_from_value(found) {
            Ok(expires_at) => expires_at,
            Err(err) => { return Err(decode_err(Field::Exp, err)); },
        },
        Err(error) => { return Err(error); },
    };
    let subject = match get_field(Field::Sub, kv_map) {
        Ok(found) => match string_from_value(found) {
            Ok(subject) => subject,
            Err(err) => { return Err(decode_err(Field::Sub, err)); },
        },
        Err(error) => { return Err(error); },
    };
    let roles = match decode_project_roles(project_roles_key(project_id.as_str()), kv_map) {
        Ok(roles) => roles,
        Err(error) => { return Err(error); },
    };
    Ok(TokenInfo { active, expires_at, subject, roles })
}

} // verus!
