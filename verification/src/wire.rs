//! The wire envelope and the decoder for capability-request payloads.
//!
//! The boundary format is a JSON envelope: a `capabilities` object whose
//! `alwaysMatch` member carries the requested browser name, version and
//! platform, beside an open-ended `desiredCapabilities` object. The decoder
//! turns such a payload into a [`Capabilities`] value, or reports exactly
//! why it could not.

use vstd::prelude::*;

use crate::browser::{BrowserMatch, Capabilities};

verus! {

/// Declares `serde_json::Value` so that it can stand in signatures and
/// fields; a value of it is opaque to the verifier.
#[verifier::external_type_specification]
#[verifier::external_body]
pub struct ExValue(serde_json::Value);

/// The outer wire envelope exchanged with callers.
pub struct W3CCapabilities {
    /// The W3C capabilities object, used to match browser/version/OS etc.
    pub capabilities: serde_json::Value,
    /// All of the additional browser-specific capabilities such as extra
    /// arguments etc.; arbitrary shape, empty when the caller sent none.
    pub desired_capabilities: serde_json::Value,
}

/// What one key of the `alwaysMatch` object holds.
pub enum JsonField {
    /// The key is not present.
    Absent,
    /// The key holds JSON `null`.
    Null,
    /// The key holds a JSON string.
    Text(String),
    /// The key holds a value of any other JSON type.
    Other,
}

/// Why a capability-request payload was rejected.
#[derive(Debug, Clone, Copy, PartialEq, Eq, Structural)]
pub enum DecodeError {
    /// The payload is not well-formed JSON.
    Syntax,
    /// The envelope has no `capabilities` member.
    MissingCapabilities,
    /// The capabilities object has no `alwaysMatch` member.
    MissingAlwaysMatch,
    /// The `alwaysMatch` object has no `browserName` member.
    MissingBrowserName,
    /// `browserName` is present but not a string.
    BadBrowserName,
    /// `browserVersion` is present but neither a string nor null.
    BadBrowserVersion,
    /// `platformName` is present but neither a string nor null.
    BadPlatformName,
}

/// Everything the decoder reads out of a payload text: whether the text
/// parses as JSON, whether the `capabilities` and `alwaysMatch` objects are
/// reachable, and what each field of `alwaysMatch` holds. When an earlier
/// step fails, the later fields are `false` or `Absent`.
pub struct RawEnvelope {
    /// The text is well-formed JSON.
    pub parsed: bool,
    /// The envelope has a `capabilities` member.
    pub has_capabilities: bool,
    /// The capabilities object has an `alwaysMatch` member.
    pub has_always_match: bool,
    /// What `alwaysMatch.browserName` holds.
    pub browser_name: JsonField,
    /// What `alwaysMatch.browserVersion` holds.
    pub browser_version: JsonField,
    /// What `alwaysMatch.platformName` holds.
    pub platform_name: JsonField,
}

/// The envelope contents that JSON parsing and lookup read out of a payload
/// text; a function of the text alone.
pub uninterp spec fn raw_envelope_of(s: Seq<char>) -> RawEnvelope;

/// Relies on `serde_json::from_str::<serde_json::Value>` and
/// `serde_json::Value::get`: parses the payload and walks to
/// `capabilities.alwaysMatch`; each field of `alwaysMatch` is told apart by
/// the variant of JSON value it holds, one arm per kind. All of it is a
/// function of the text alone.
#[verifier::external_body]
fn read_envelope(text: &str) -> (r: RawEnvelope)
    ensures
        r == raw_envelope_of(text@),
{
    let root: Option<serde_json::Value> = serde_json::from_str(text).ok();
    let caps = root.as_ref().and_then(|v| v.get("capabilities"));
    let always = caps.and_then(|v| v.get("alwaysMatch"));
    let f = |k: &str| match always.and_then(|v| v.get(k)) {
        None => JsonField::Absent,
        Some(serde_json::Value::Null) => JsonField::Null,
        Some(serde_json::Value::String(s)) => JsonField::Text(s.clone()),
        Some(_) => JsonField::Other,
    };
    RawEnvelope {
        parsed: root.is_some(), has_capabilities: caps.is_some(), has_always_match: always.is_some(),
        browser_name: f("browserName"), browser_version: f("browserVersion"), platform_name: f("platformName"),
    }
}

/// The optional string that a decoded field contributes to the request:
/// the characters of a string field, nothing for an absent or null one.
pub open spec fn optional_of(f: JsonField) -> Option<Seq<char>> {
    match f {
        JsonField::Text(s) => Some(s@),
        _ => None,
    }
}

/// The error that a triple of decoded fields is rejected with, read only
/// when one of them is rejectable.
pub open spec fn field_error(name: JsonField, version: JsonField, platform: JsonField) -> DecodeError {
    if name is Absent {
        DecodeError::MissingBrowserName
    } else if !(name is Text) {
        DecodeError::BadBrowserName
    } else if version is Other {
        DecodeError::BadBrowserVersion
    } else {
        DecodeError::BadPlatformName
    }
}

/// Whether an envelope's contents decode to a capability request: the text
/// parsed, `capabilities.alwaysMatch` was reached, `browserName` holds a
/// string, and neither optional field holds a non-string, non-null value.
pub open spec fn envelope_ok(e: RawEnvelope) -> bool {
    &&& e.parsed
    &&& e.has_capabilities
    &&& e.has_always_match
    &&& e.browser_name is Text
    &&& !(e.browser_version is Other)
    &&& !(e.platform_name is Other)
}

/// The error that an envelope's contents are rejected with: the first
/// failure met, in decode order.
pub open spec fn envelope_error(e: RawEnvelope) -> DecodeError {
    if !e.parsed {
        DecodeError::Syntax
    } else if !e.has_capabilities {
        DecodeError::MissingCapabilities
    } else if !e.has_always_match {
        DecodeError::MissingAlwaysMatch
    } else {
        field_error(e.browser_name, e.browser_version, e.platform_name)
    }
}

/// Builds a capability request from the three decoded `alwaysMatch` fields.
/// `browserName` must be a string; `browserVersion` and `platformName` may
/// each be a string, null, or absent (null and absent both mean
/// "unspecified"); anything else is rejected.
pub fn build_capabilities(name: JsonField, version: JsonField, platform: JsonField) -> (r: Result<
    Capabilities,
    DecodeError,
>)
    ensures
        r is Ok <==> (name is Text && !(version is Other) && !(platform is Other)),
        r matches Ok(c) ==> {
            &&& name matches JsonField::Text(n) && c@.browser_name == n@
            &&& c@.browser_version == optional_of(version)
            &&& c@.platform_name == optional_of(platform)
        },
        r matches Err(e) ==> e == field_error(name, version, platform),
{
    let browser_name = match name {
        JsonField::Text(s) => s,
        JsonField::Absent => {
            return Err(DecodeError::MissingBrowserName);
        },
        _ => {
            return Err(DecodeError::BadBrowserName);
        },
    };
    let browser_version = match version {
        JsonField::Text(s) => Some(s),
        JsonField::Other => {
            return Err(DecodeError::BadBrowserVersion);
        },
        _ => None,
    };
    let platform_name = match platform {
        JsonField::Text(s) => Some(s),
        JsonField::Other => {
            return Err(DecodeError::BadPlatformName);
        },
        _ => None,
    };
    Ok(Capabilities::new(BrowserMatch::new(browser_name, browser_version, platform_name)))
}

/// Decodes a wire-envelope payload into a capability request. A request is
/// produced exactly when the payload parses, `capabilities.alwaysMatch` is
/// reachable, `browserName` holds a string, and `browserVersion` and
/// `platformName` each hold a string or null or are absent; the request
/// then carries those fields, null and absent meaning "unspecified". A
/// malformed payload is answered with the [`DecodeError`] naming the first
/// failure met, and no request value is produced.
pub fn decode_capabilities(text: &str) -> (r: Result<Capabilities, DecodeError>)
    ensures
        r is Ok <==> envelope_ok(raw_envelope_of(text@)),
        r matches Ok(c) ==> {
            &&& raw_envelope_of(text@).browser_name matches JsonField::Text(n)
                && c@.browser_name == n@
            &&& c@.browser_version == optional_of(raw_envelope_of(text@).browser_version)
            &&& c@.platform_name == optional_of(raw_envelope_of(text@).platform_name)
        },
        r matches Err(e) ==> e == envelope_error(raw_envelope_of(text@)),
{
    let envelope = read_envelope(text);
    if !envelope.parsed {
        return Err(DecodeError::Syntax);
    }
    if !envelope.has_capabilities {
        return Err(DecodeError::MissingCapabilities);
    }
    if !envelope.has_always_match {
        return Err(DecodeError::MissingAlwaysMatch);
    }
    build_capabilities(envelope.browser_name, envelope.browser_version, envelope.platform_name)
}

} // verus!
